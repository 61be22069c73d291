use vstd::prelude::*;

use crate::error::ListenerError;
use crate::listener::{
    block_reference_for, status_events, BlockRecovery, NearEventListener,
    SERVER_ERROR_BACKOFF_SECS,
};
use crate::models::{
    BlockFetchError, BlockRef, BlockSnapshot, ChunkSnapshot, EventLog, TransactionStatus,
};
use crate::scan::{chunk_match, events_view};

verus! {

/// Seconds to wait after a block arrives, so that the chain settles before
/// its chunks are read.
pub const SETTLE_DELAY_SECS: u64 = 2;

/// Seconds to wait between two polls.
pub const POLL_INTERVAL_SECS: u64 = 2;

/// Where the polling loop stands: what it waits for.
#[derive(Debug)]
pub enum PollStage {
    /// A block was requested.
    AwaitBlock,
    /// A block arrived; a settle pause was requested.
    Settling(BlockSnapshot),
    /// The chunk at `index` of `block` was requested.
    AwaitChunk { block: BlockSnapshot, index: usize },
    /// The status of the block's matching transaction was requested.
    AwaitStatus(BlockSnapshot),
    /// The events of the block at this height are being delivered.
    Dispatching(u64),
    /// A pause after a non-success HTTP status was requested.
    BackingOff,
    /// The pause between two polls was requested.
    Resting,
    /// The loop stopped on an error.
    Stopped,
}

/// What the embedding program is to do next.
#[derive(Debug)]
pub enum PollAction {
    FetchBlock(BlockRef),
    Sleep(u64),
    FetchChunk(String),
    FetchStatus { tx_hash: String, signer_id: String },
    /// Hand each event to the handler, in order.
    Deliver(Vec<EventLog>),
    /// Stop polling and report the error.
    Stop(ListenerError),
}

/// What the embedding program reports back after an action.
#[derive(Debug)]
pub enum PollReply {
    Block(BlockSnapshot),
    BlockFailed(BlockFetchError),
    Chunk(ChunkSnapshot),
    /// A chunk request failed; holds the failure's description.
    ChunkFailed(String),
    Status(TransactionStatus),
    StatusFailed(ListenerError),
    Slept,
    Delivered,
}

/// Whether a stage is one the loop can be in: a chunk index lies inside its
/// block.
pub open spec fn stage_wf(stage: PollStage) -> bool {
    match stage {
        PollStage::AwaitChunk { block, index } => index < block.chunks@.len(),
        _ => true,
    }
}

/// Whether `reply` answers the action that led to `stage`.
pub open spec fn awaits(stage: PollStage, reply: PollReply) -> bool {
    match stage {
        PollStage::AwaitBlock => reply is Block || reply is BlockFailed,
        PollStage::Settling(_) | PollStage::BackingOff | PollStage::Resting => reply is Slept,
        PollStage::AwaitChunk { .. } => reply is Chunk || reply is ChunkFailed,
        PollStage::AwaitStatus(_) => reply is Status || reply is StatusFailed,
        PollStage::Dispatching(_) => reply is Delivered,
        PollStage::Stopped => false,
    }
}

/// The end of a block's processing: the cursor takes the block's height and
/// the loop pauses before the next poll.
pub open spec fn finishes_block(height: u64, cursor_after: u64, next: PollStage, action: PollAction) -> bool {
    cursor_after == height && next is Resting && action == PollAction::Sleep(POLL_INTERVAL_SECS)
}

/// The request of the chunk at `index` of `block`.
pub open spec fn requests_chunk(block: BlockSnapshot, index: int, next: PollStage, action: PollAction) -> bool {
    &&& next == (PollStage::AwaitChunk { block, index: index as usize })
    &&& action matches PollAction::FetchChunk(h) && h@ == block.chunks@[index]@
}

/// One step of the polling loop for a listener watching `account` and
/// `method`: from the cursor, the stage and the reply, to the cursor after,
/// the next stage and the next action.
pub open spec fn step_post(
    account: Seq<char>,
    method: Seq<char>,
    cursor: u64,
    stage: PollStage,
    reply: PollReply,
    cursor_after: u64,
    next: PollStage,
    action: PollAction,
) -> bool {
    match stage {
        PollStage::AwaitBlock => match reply {
            PollReply::Block(block) => cursor_after == cursor && next == PollStage::Settling(block)
                && action == PollAction::Sleep(SETTLE_DELAY_SECS),
            PollReply::BlockFailed(err) => match err {
                BlockFetchError::UnknownBlock => cursor_after == cursor + 1 && next is Resting
                    && action == PollAction::Sleep(POLL_INTERVAL_SECS),
                BlockFetchError::ResponseStatus(_) => cursor_after == cursor && next is BackingOff
                    && action == PollAction::Sleep(SERVER_ERROR_BACKOFF_SECS),
                BlockFetchError::Handler(d) => cursor_after == cursor && next is Stopped && (
                action matches PollAction::Stop(ListenerError::RpcError(m)) && m@ == "Block error: "@
                    + d@),
                BlockFetchError::Other(d) => cursor_after == cursor && next is Stopped && (
                action matches PollAction::Stop(ListenerError::RpcError(m)) && m@
                    == "Non-handler error: "@ + d@),
            },
            _ => false,
        },
        PollStage::Settling(block) => if block.chunks@.len() == 0 {
            finishes_block(block.height, cursor_after, next, action)
        } else {
            cursor_after == cursor && requests_chunk(block, 0, next, action)
        },
        PollStage::AwaitChunk { block, index } => match reply {
            PollReply::Chunk(chunk) => match chunk_match(chunk.transactions@, account, method) {
                Some((hash, signer)) => cursor_after == cursor && next == PollStage::AwaitStatus(block)
                    && (action matches PollAction::FetchStatus { tx_hash, signer_id } && tx_hash@
                    == hash && signer_id@ == signer),
                None => if index + 1 < block.chunks@.len() {
                    cursor_after == cursor && requests_chunk(block, index + 1, next, action)
                } else {
                    finishes_block(block.height, cursor_after, next, action)
                },
            },
            PollReply::ChunkFailed(msg) => cursor_after == cursor && next is Stopped && (
            action matches PollAction::Stop(ListenerError::RpcError(m)) && m@ == msg@),
            _ => false,
        },
        PollStage::AwaitStatus(block) => match reply {
            PollReply::Status(status) => cursor_after == cursor && next == PollStage::Dispatching(
                block.height,
            ) && (action matches PollAction::Deliver(events) && events_view(events@)
                == status_events(status)),
            PollReply::StatusFailed(e) => cursor_after == cursor && next is Stopped && action
                == PollAction::Stop(e),
            _ => false,
        },
        PollStage::Dispatching(height) => finishes_block(height, cursor_after, next, action),
        PollStage::BackingOff => cursor_after == cursor && next is Resting && action
            == PollAction::Sleep(POLL_INTERVAL_SECS),
        PollStage::Resting => cursor_after == cursor && next is AwaitBlock && action
            == PollAction::FetchBlock(block_reference_for(cursor)),
        PollStage::Stopped => false,
    }
}

/// How a step moves the cursor: a finished block sets it to the block's
/// height; an unknown block moves it on by one; a non-success HTTP status,
/// and any step that does not end a poll, leave it as it was.
pub proof fn lemma_cursor_updates(
    account: Seq<char>,
    method: Seq<char>,
    cursor: u64,
    stage: PollStage,
    reply: PollReply,
    cursor_after: u64,
    next: PollStage,
    action: PollAction,
)
    requires
        step_post(account, method, cursor, stage, reply, cursor_after, next, action),
    ensures
        stage matches PollStage::Settling(block) ==> (next is Resting ==> cursor_after
            == block.height),
        stage matches PollStage::AwaitChunk { block, .. } ==> (next is Resting ==> cursor_after
            == block.height),
        stage matches PollStage::Dispatching(height) ==> cursor_after == height,
        stage is AwaitBlock ==> (reply matches PollReply::BlockFailed(e) && e is UnknownBlock ==> cursor_after == cursor + 1),
        stage is AwaitBlock ==> (reply matches PollReply::BlockFailed(e) && e is ResponseStatus ==> cursor_after == cursor),
        !(next is Resting) ==> cursor_after == cursor,
{
}

/// Whether `reply` answers the action that led to `stage`.
pub fn accepts(stage: &PollStage, reply: &PollReply) -> (r: bool)
    ensures
        r == awaits(*stage, *reply),
{
    match stage {
        PollStage::AwaitBlock => matches!(reply, PollReply::Block(_) | PollReply::BlockFailed(_)),
        PollStage::Settling(_) | PollStage::BackingOff | PollStage::Resting => matches!(reply, PollReply::Slept),
        PollStage::AwaitChunk { .. } => matches!(reply, PollReply::Chunk(_) | PollReply::ChunkFailed(_)),
        PollStage::AwaitStatus(_) => matches!(reply, PollReply::Status(_) | PollReply::StatusFailed(_)),
        PollStage::Dispatching(_) => matches!(reply, PollReply::Delivered),
        PollStage::Stopped => false,
    }
}

/// Ends a block: the cursor takes its height and the loop pauses.
fn finish_block(listener: &mut NearEventListener, height: u64) -> (r: (PollStage, PollAction))
    ensures
        final(listener).rpc_url == old(listener).rpc_url,
        final(listener).account_id == old(listener).account_id,
        final(listener).method_name == old(listener).method_name,
        finishes_block(height, final(listener).last_processed_block, r.0, r.1),
{
    listener.last_processed_block = height;
    (PollStage::Resting, PollAction::Sleep(POLL_INTERVAL_SECS))
}

/// Requests the chunk at `index` of `block`.
fn request_chunk(block: BlockSnapshot, index: usize) -> (r: (PollStage, PollAction))
    requires
        index < block.chunks@.len(),
    ensures
        requests_chunk(block, index as int, r.0, r.1),
        stage_wf(r.0),
{
    let hash = block.chunks[index].clone();
    (PollStage::AwaitChunk { block, index }, PollAction::FetchChunk(hash))
}

impl NearEventListener {
    /// The first stage and action of the polling loop: request the block that
    /// follows the cursor.
    pub fn poll_start(&self) -> (r: (PollStage, PollAction))
        requires
            self.last_processed_block < u64::MAX,
        ensures
            r.0 is AwaitBlock,
            r.1 == PollAction::FetchBlock(block_reference_for(self.last_processed_block)),
    {
        (PollStage::AwaitBlock, PollAction::FetchBlock(self.specify_block_reference()))
    }

    /// Takes the reply to the last action and decides the next one.
    pub fn poll_step(&mut self, stage: PollStage, reply: PollReply) -> (r: (PollStage, PollAction))
        requires
            stage_wf(stage),
            awaits(stage, reply),
            stage is Resting ==> old(self).last_processed_block < u64::MAX,
            (reply matches PollReply::BlockFailed(e) && e is UnknownBlock) ==> old(
                self,
            ).last_processed_block < u64::MAX,
        ensures
            final(self).rpc_url == old(self).rpc_url,
            final(self).account_id == old(self).account_id,
            final(self).method_name == old(self).method_name,
            stage_wf(r.0),
            step_post(
                old(self).account_id@,
                old(self).method_name@,
                old(self).last_processed_block,
                stage,
                reply,
                final(self).last_processed_block,
                r.0,
                r.1,
            ),
    {
        match stage {
            PollStage::AwaitBlock => match reply {
                PollReply::Block(block) => (
                    PollStage::Settling(block),
                    PollAction::Sleep(SETTLE_DELAY_SECS),
                ),
                PollReply::BlockFailed(err) => match self.handle_block_error(err) {
                    Ok(BlockRecovery::Advanced) => (
                        PollStage::Resting,
                        PollAction::Sleep(POLL_INTERVAL_SECS),
                    ),
                    Ok(BlockRecovery::RetryAfter(secs)) => (
                        PollStage::BackingOff,
                        PollAction::Sleep(secs),
                    ),
                    Err(e) => (PollStage::Stopped, PollAction::Stop(e)),
                },
                // `awaits` rules out every other reply here.
                _ => (PollStage::Stopped, PollAction::Sleep(0)),
            },
            PollStage::Settling(block) => {
                if block.chunks.len() == 0 {
                    finish_block(self, block.height)
                } else {
                    request_chunk(block, 0)
                }
            },
            PollStage::AwaitChunk { block, index } => match reply {
                PollReply::Chunk(chunk) => match self.find_transaction_in_chunk(&chunk) {
                    Some((tx_hash, signer_id)) => (
                        PollStage::AwaitStatus(block),
                        PollAction::FetchStatus { tx_hash, signer_id },
                    ),
                    None => {
                        if index < block.chunks.len() - 1 {
                            request_chunk(block, index + 1)
                        } else {
                            finish_block(self, block.height)
                        }
                    },
                },
                PollReply::ChunkFailed(msg) => (
                    PollStage::Stopped,
                    PollAction::Stop(ListenerError::RpcError(msg)),
                ),
                // `awaits` rules out every other reply here.
                _ => (PollStage::Stopped, PollAction::Sleep(0)),
            },
            PollStage::AwaitStatus(block) => match reply {
                PollReply::Status(status) => {
                    let logs = self.extract_logs(&status);
                    let events = Self::decode_logs(&logs);
                    (PollStage::Dispatching(block.height), PollAction::Deliver(events))
                },
                PollReply::StatusFailed(e) => (PollStage::Stopped, PollAction::Stop(e)),
                // `awaits` rules out every other reply here.
                _ => (PollStage::Stopped, PollAction::Sleep(0)),
            },
            PollStage::Dispatching(height) => finish_block(self, height),
            PollStage::BackingOff => (PollStage::Resting, PollAction::Sleep(POLL_INTERVAL_SECS)),
            PollStage::Resting => {
                let reference = self.specify_block_reference();
                (PollStage::AwaitBlock, PollAction::FetchBlock(reference))
            },
            // `awaits` rules out any reply to a stopped loop.
            PollStage::Stopped => (PollStage::Stopped, PollAction::Sleep(0)),
        }
    }
}

} // verus!
