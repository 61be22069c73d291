use vstd::prelude::*;

use crate::error::ListenerError;
use crate::events::{
    decode_outcome_matches, event_from_document, starts_with_event_prefix, EVENT_PREFIX_LEN,
};
use crate::json::{parse_document, schema_error};
use crate::models::{
    ActionSnapshot, BlockFetchError, BlockRef, ChunkSnapshot, EventLog, EventView,
    ExecutionOutcome, TransactionStatus,
};
use crate::scan::{
    block_match, chunk_match, decoded_events, events_view, is_call_of, lemma_block_match_prefix,
    lemma_chunk_match_prefix, lines_view, match_view, receipts_lines, status_lines, tx_matches,
};

verus! {

/// Seconds to wait before retrying a block request that the node refused with
/// a non-success HTTP status.
pub const SERVER_ERROR_BACKOFF_SECS: u64 = 5;

/// A listener: which node to ask, which account and method to watch, and the
/// cursor, the height of the last block already processed (`0` before the
/// first block, which is then the latest final one).
#[derive(Debug)]
pub struct NearEventListener {
    pub rpc_url: String,
    pub account_id: String,
    pub method_name: String,
    pub last_processed_block: u64,
}

/// Collects a listener's settings; [`NearEventListenerBuilder::build`] checks
/// them.
pub struct NearEventListenerBuilder {
    rpc_url: String,
    account_id: String,
    method_name: String,
    last_processed_block: u64,
}

/// The settings that a builder holds.
pub struct BuilderView {
    pub rpc_url: Seq<char>,
    pub account_id: Seq<char>,
    pub method_name: Seq<char>,
    pub last_processed_block: u64,
}

impl View for NearEventListenerBuilder {
    type V = BuilderView;

    closed spec fn view(&self) -> BuilderView {
        BuilderView {
            rpc_url: self.rpc_url@,
            account_id: self.account_id@,
            method_name: self.method_name@,
            last_processed_block: self.last_processed_block,
        }
    }
}

impl NearEventListenerBuilder {
    /// A builder for a listener of the node at `rpc_url`, with no account or
    /// method yet and a cursor of `0`.
    pub fn new(rpc_url: &str) -> (r: Self)
        ensures
            r@.rpc_url == rpc_url@,
            r@.account_id.len() == 0,
            r@.method_name.len() == 0,
            r@.last_processed_block == 0,
    {
        NearEventListenerBuilder {
            rpc_url: String::from_str(rpc_url),
            account_id: String::new(),
            method_name: String::new(),
            last_processed_block: 0,
        }
    }

    /// Sets the account whose incoming transactions are watched.
    pub fn account_id(self, account_id: &str) -> (r: Self)
        ensures
            r@ == (BuilderView { account_id: account_id@, ..self@ }),
    {
        NearEventListenerBuilder { account_id: String::from_str(account_id), ..self }
    }

    /// Sets the method whose calls are watched.
    pub fn method_name(self, method_name: &str) -> (r: Self)
        ensures
            r@ == (BuilderView { method_name: method_name@, ..self@ }),
    {
        NearEventListenerBuilder { method_name: String::from_str(method_name), ..self }
    }

    /// Sets the height of the last block already processed.
    pub fn last_processed_block(self, block: u64) -> (r: Self)
        ensures
            r@ == (BuilderView { last_processed_block: block, ..self@ }),
    {
        NearEventListenerBuilder { last_processed_block: block, ..self }
    }

    /// The listener, or the first empty required field, checked in the order
    /// `account_id`, `method_name`.
    pub fn build(self) -> (r: Result<NearEventListener, ListenerError>)
        ensures
            self@.account_id.len() == 0 ==> (r matches Err(ListenerError::MissingField(f)) && f@
                == "account_id"@),
            self@.account_id.len() != 0 && self@.method_name.len() == 0 ==> (r matches Err(
                ListenerError::MissingField(f),
            ) && f@ == "method_name"@),
            self@.account_id.len() != 0 && self@.method_name.len() != 0 ==> (r matches Ok(l) && l.rpc_url@
                == self@.rpc_url && l.account_id@ == self@.account_id && l.method_name@
                == self@.method_name && l.last_processed_block == self@.last_processed_block),
    {
        if self.account_id.as_str().is_empty() {
            return Err(ListenerError::MissingField(String::from_str("account_id")));
        }
        if self.method_name.as_str().is_empty() {
            return Err(ListenerError::MissingField(String::from_str("method_name")));
        }
        Ok(
            NearEventListener {
                rpc_url: self.rpc_url,
                account_id: self.account_id,
                method_name: self.method_name,
                last_processed_block: self.last_processed_block,
            },
        )
    }
}

} // verus!

verus! {

/// What to do after a failed block request that the listener recovers from.
#[derive(Debug, Clone, Copy, PartialEq, Eq)]
pub enum BlockRecovery {
    /// The cursor moved past the unknown height; go on polling.
    Advanced,
    /// Wait this many seconds, then ask for the same block again.
    RetryAfter(u64),
}

/// The block that follows a cursor: the latest final one before any block was
/// processed, else the next height.
pub open spec fn block_reference_for(cursor: u64) -> BlockRef
    recommends
        cursor < u64::MAX,
{
    if cursor == 0 {
        BlockRef::Final
    } else {
        BlockRef::Height((cursor + 1) as u64)
    }
}

/// The block to request depends on the cursor alone: the latest final block
/// for a cursor of `0`, else the height after the cursor.
pub proof fn lemma_block_reference(cursor: u64)
    requires
        cursor < u64::MAX,
    ensures
        cursor == 0 ==> block_reference_for(cursor) == BlockRef::Final,
        cursor > 0 ==> block_reference_for(cursor) == BlockRef::Height((cursor + 1) as u64),
{
}

/// The events a transaction status carries, in log order.
pub open spec fn status_events(status: TransactionStatus) -> Seq<EventView> {
    decoded_events(status_lines(status))
}

impl NearEventListener {
    /// A builder for a listener of the node at `rpc_url`.
    pub fn builder(rpc_url: &str) -> (r: NearEventListenerBuilder)
        ensures
            r@.rpc_url == rpc_url@,
            r@.account_id.len() == 0,
            r@.method_name.len() == 0,
            r@.last_processed_block == 0,
    {
        NearEventListenerBuilder::new(rpc_url)
    }

    /// The block to request next.
    pub fn specify_block_reference(&self) -> (r: BlockRef)
        requires
            self.last_processed_block < u64::MAX,
        ensures
            r == block_reference_for(self.last_processed_block),
    {
        if self.last_processed_block == 0 {
            BlockRef::Final
        } else {
            BlockRef::Height(self.last_processed_block + 1)
        }
    }

    /// Whether some action calls the watched method.
    fn calls_watched_method(&self, actions: &Vec<ActionSnapshot>) -> (r: bool)
        ensures
            r == exists|k: int|
                0 <= k < actions@.len() && is_call_of(#[trigger] actions@[k], self.method_name@),
    {
        let mut i: usize = 0;
        while i < actions.len()
            invariant
                0 <= i <= actions@.len(),
                forall|j: int| 0 <= j < i ==> !is_call_of(#[trigger] actions@[j], self.method_name@),
            decreases actions@.len() - i,
        {
            match &actions[i] {
                ActionSnapshot::FunctionCall { method_name } => {
                    if *method_name == self.method_name {
                        assert(is_call_of(actions@[i as int], self.method_name@));
                        return true;
                    }
                },
                ActionSnapshot::Other => {},
            }
            i = i + 1;
        }
        false
    }

    /// The hash and signer of the first transaction of a chunk that is sent to
    /// the watched account and calls the watched method there.
    pub fn find_transaction_in_chunk(&self, chunk: &ChunkSnapshot) -> (r: Option<(String, String)>)
        ensures
            match_view(r) == chunk_match(chunk.transactions@, self.account_id@, self.method_name@),
    {
        let ghost account = self.account_id@;
        let ghost method = self.method_name@;
        let mut i: usize = 0;
        while i < chunk.transactions.len()
            invariant
                0 <= i <= chunk.transactions@.len(),
                chunk_match(chunk.transactions@.take(i as int), account, method) is None,
                account == self.account_id@,
                method == self.method_name@,
            decreases chunk.transactions@.len() - i,
        {
            let tx = &chunk.transactions[i];
            assert(chunk.transactions@.take(i + 1).drop_last() =~= chunk.transactions@.take(i as int));
            if tx.receiver_id == self.account_id && self.calls_watched_method(&tx.actions) {
                proof {
                    assert(chunk.transactions@.take(i + 1).last() == chunk.transactions@[i as int]);
                    assert(tx_matches(chunk.transactions@[i as int], account, method));
                    assert(chunk_match(chunk.transactions@.take(i + 1), account, method) == Some(
                        (tx.hash@, tx.signer_id@),
                    ));
                    lemma_chunk_match_prefix(chunk.transactions@, i + 1, account, method);
                }
                return Some((tx.hash.clone(), tx.signer_id.clone()));
            }
            i = i + 1;
        }
        assert(chunk.transactions@.take(i as int) =~= chunk.transactions@);
        None
    }

    /// The first match of a block whose chunks were all fetched, chunk by
    /// chunk in the block's order.
    pub fn find_transaction_in_block(&self, chunks: &Vec<ChunkSnapshot>) -> (r: Option<(String, String)>)
        ensures
            match_view(r) == block_match(chunks@, self.account_id@, self.method_name@),
    {
        let ghost account = self.account_id@;
        let ghost method = self.method_name@;
        let mut i: usize = 0;
        while i < chunks.len()
            invariant
                0 <= i <= chunks@.len(),
                block_match(chunks@.take(i as int), account, method) is None,
                account == self.account_id@,
                method == self.method_name@,
            decreases chunks@.len() - i,
        {
            assert(chunks@.take(i + 1).drop_last() =~= chunks@.take(i as int));
            let found = self.find_transaction_in_chunk(&chunks[i]);
            if found.is_some() {
                proof {
                    lemma_block_match_prefix(chunks@, i + 1, account, method);
                }
                return found;
            }
            i = i + 1;
        }
        assert(chunks@.take(i as int) =~= chunks@);
        None
    }

    /// All log lines of a transaction status: the transaction's own, then
    /// each receipt's in order; none for an outcome that only refers to a
    /// receipt.
    pub fn extract_logs(&self, response: &TransactionStatus) -> (r: Vec<String>)
        ensures
            lines_view(r@) == status_lines(*response),
    {
        let mut logs: Vec<String> = Vec::new();
        match &response.final_execution_outcome {
            Some(ExecutionOutcome::Resolved { transaction_logs, receipt_logs }) => {
                append_lines(&mut logs, transaction_logs);
                assert(lines_view(logs@) =~= lines_view(transaction_logs@) + receipts_lines(
                    receipt_logs@.take(0),
                ));
                let mut i: usize = 0;
                while i < receipt_logs.len()
                    invariant
                        0 <= i <= receipt_logs@.len(),
                        lines_view(logs@) == lines_view(transaction_logs@) + receipts_lines(
                            receipt_logs@.take(i as int),
                        ),
                    decreases receipt_logs@.len() - i,
                {
                    append_lines(&mut logs, &receipt_logs[i]);
                    assert(receipt_logs@.take(i + 1).drop_last() =~= receipt_logs@.take(i as int));
                    assert(lines_view(logs@) =~= lines_view(transaction_logs@) + receipts_lines(
                        receipt_logs@.take(i + 1),
                    ));
                    i = i + 1;
                }
                assert(receipt_logs@.take(i as int) =~= receipt_logs@);
            },
            _ => {
                assert(lines_view(logs@) =~= Seq::empty());
            },
        }
        logs
    }

    /// Decodes one log line: the prefix `EVENT_JSON:` followed by a JSON
    /// object with string members `standard`, `version`, `event` and a member
    /// `data`. Without the prefix the error is `InvalidEventFormat`; with it,
    /// a payload that is not such an object gives `JsonError`.
    pub fn process_log(log: &str) -> (r: Result<EventLog, ListenerError>)
        ensures
            decode_outcome_matches(log@, r),
    {
        if !starts_with_event_prefix(log) {
            return Err(
                ListenerError::InvalidEventFormat(
                    String::from_str("Log does not start with EVENT_JSON:"),
                ),
            );
        }
        let payload = log.substring_char(EVENT_PREFIX_LEN, log.unicode_len());
        match parse_document(payload) {
            Err(e) => Err(ListenerError::JsonError(e)),
            Ok(doc) => match event_from_document(&doc) {
                Some(event) => Ok(event),
                None => Err(
                    ListenerError::JsonError(
                        schema_error(
                            "expected an object with string members standard, version and event, and a member data",
                        ),
                    ),
                ),
            },
        }
    }

    /// The events of a list of log lines, in order; lines that do not decode
    /// are skipped.
    pub fn decode_logs(logs: &Vec<String>) -> (r: Vec<EventLog>)
        ensures
            events_view(r@) == decoded_events(lines_view(logs@)),
    {
        let mut events: Vec<EventLog> = Vec::new();
        let mut i: usize = 0;
        while i < logs.len()
            invariant
                0 <= i <= logs@.len(),
                events_view(events@) == decoded_events(lines_view(logs@.take(i as int))),
            decreases logs@.len() - i,
        {
            let ghost before = events@;
            let decoded = Self::process_log(logs[i].as_str());
            assert(lines_view(logs@.take(i + 1)).drop_last() =~= lines_view(logs@.take(i as int)));
            assert(lines_view(logs@.take(i + 1)).last() == logs@[i as int]@);
            match decoded {
                Ok(event) => {
                    events.push(event);
                    assert(events_view(events@) =~= events_view(before) + seq![event@]);
                },
                Err(_) => {
                    assert(events_view(events@) =~= events_view(before) + Seq::<EventView>::empty());
                },
            }
            i = i + 1;
        }
        assert(logs@.take(i as int) =~= logs@);
        events
    }

    /// Decides what a failed block request leads to: past an unknown block
    /// the cursor moves on by one; a non-success HTTP status asks for a pause
    /// before the same request; anything else stops the listener.
    pub fn handle_block_error(&mut self, err: BlockFetchError) -> (r: Result<BlockRecovery, ListenerError>)
        requires
            err is UnknownBlock ==> old(self).last_processed_block < u64::MAX,
        ensures
            final(self).rpc_url == old(self).rpc_url,
            final(self).account_id == old(self).account_id,
            final(self).method_name == old(self).method_name,
            match err {
                BlockFetchError::UnknownBlock => r == Ok::<BlockRecovery, ListenerError>(BlockRecovery::Advanced)
                    && final(self).last_processed_block == old(self).last_processed_block + 1,
                BlockFetchError::ResponseStatus(_) => r == Ok::<BlockRecovery, ListenerError>(
                    BlockRecovery::RetryAfter(SERVER_ERROR_BACKOFF_SECS),
                ) && final(self).last_processed_block == old(self).last_processed_block,
                BlockFetchError::Handler(d) => (r matches Err(ListenerError::RpcError(m)) && m@
                    == "Block error: "@ + d@) && final(self).last_processed_block
                    == old(self).last_processed_block,
                BlockFetchError::Other(d) => (r matches Err(ListenerError::RpcError(m)) && m@
                    == "Non-handler error: "@ + d@) && final(self).last_processed_block
                    == old(self).last_processed_block,
            },
    {
        match err {
            BlockFetchError::UnknownBlock => {
                self.last_processed_block = self.last_processed_block + 1;
                Ok(BlockRecovery::Advanced)
            },
            BlockFetchError::ResponseStatus(_) => Ok(
                BlockRecovery::RetryAfter(SERVER_ERROR_BACKOFF_SECS),
            ),
            BlockFetchError::Handler(d) => Err(
                ListenerError::RpcError(String::from_str("Block error: ").concat(d.as_str())),
            ),
            BlockFetchError::Other(d) => Err(
                ListenerError::RpcError(String::from_str("Non-handler error: ").concat(d.as_str())),
            ),
        }
    }
}

/// Appends the lines of `lines` to `out`, in order.
fn append_lines(out: &mut Vec<String>, lines: &Vec<String>)
    ensures
        lines_view(final(out)@) == lines_view(old(out)@) + lines_view(lines@),
{
    let mut i: usize = 0;
    while i < lines.len()
        invariant
            0 <= i <= lines@.len(),
            lines_view(out@) == lines_view(old(out)@) + lines_view(lines@.take(i as int)),
        decreases lines@.len() - i,
    {
        let ghost before = out@;
        out.push(lines[i].clone());
        assert(lines_view(out@) =~= lines_view(before).push(lines@[i as int]@));
        assert(lines_view(lines@.take(i + 1)) =~= lines_view(lines@.take(i as int)).push(lines@[i as int]@));
        i = i + 1;
    }
    assert(lines@.take(i as int) =~= lines@);
}

} // verus!
