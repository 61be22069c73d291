use vstd::prelude::*;

use crate::events::decode_log;
use crate::models::{
    ActionSnapshot, ChunkSnapshot, EventLog, EventView, ExecutionOutcome, TransactionSnapshot,
    TransactionStatus,
};

verus! {

/// Whether an action calls the method `method`.
pub open spec fn is_call_of(action: ActionSnapshot, method: Seq<char>) -> bool {
    match action {
        ActionSnapshot::FunctionCall { method_name } => method_name@ == method,
        ActionSnapshot::Other => false,
    }
}

/// Whether a transaction is sent to `account` and calls `method` there.
pub open spec fn tx_matches(tx: TransactionSnapshot, account: Seq<char>, method: Seq<char>) -> bool {
    &&& tx.receiver_id@ == account
    &&& exists|k: int| 0 <= k < tx.actions@.len() && is_call_of(#[trigger] tx.actions@[k], method)
}

/// The hash and signer of the first matching transaction of a list.
pub open spec fn chunk_match(txs: Seq<TransactionSnapshot>, account: Seq<char>, method: Seq<char>) -> Option<(Seq<char>, Seq<char>)>
    decreases txs.len(),
{
    if txs.len() == 0 {
        None
    } else {
        match chunk_match(txs.drop_last(), account, method) {
            Some(m) => Some(m),
            None => if tx_matches(txs.last(), account, method) {
                Some((txs.last().hash@, txs.last().signer_id@))
            } else {
                None
            },
        }
    }
}

/// The hash and signer of the first matching transaction of a block, chunk
/// by chunk.
pub open spec fn block_match(chunks: Seq<ChunkSnapshot>, account: Seq<char>, method: Seq<char>) -> Option<(Seq<char>, Seq<char>)>
    decreases chunks.len(),
{
    if chunks.len() == 0 {
        None
    } else {
        match block_match(chunks.drop_last(), account, method) {
            Some(m) => Some(m),
            None => chunk_match(chunks.last().transactions@, account, method),
        }
    }
}

/// The mathematical value of a found match.
pub open spec fn match_view(m: Option<(String, String)>) -> Option<(Seq<char>, Seq<char>)> {
    match m {
        Some((hash, signer)) => Some((hash@, signer@)),
        None => None,
    }
}

/// Once a prefix of a list holds a match, the whole list has that match.
pub proof fn lemma_chunk_match_prefix(txs: Seq<TransactionSnapshot>, k: int, account: Seq<char>, method: Seq<char>)
    requires
        0 <= k <= txs.len(),
        chunk_match(txs.take(k), account, method) is Some,
    ensures
        chunk_match(txs, account, method) == chunk_match(txs.take(k), account, method),
    decreases txs.len(),
{
    if k == txs.len() {
        assert(txs.take(k) =~= txs);
    } else {
        assert(txs.drop_last().take(k) =~= txs.take(k));
        lemma_chunk_match_prefix(txs.drop_last(), k, account, method);
    }
}

/// Once a prefix of a block holds a match, the whole block has that match.
pub proof fn lemma_block_match_prefix(chunks: Seq<ChunkSnapshot>, k: int, account: Seq<char>, method: Seq<char>)
    requires
        0 <= k <= chunks.len(),
        block_match(chunks.take(k), account, method) is Some,
    ensures
        block_match(chunks, account, method) == block_match(chunks.take(k), account, method),
    decreases chunks.len(),
{
    if k == chunks.len() {
        assert(chunks.take(k) =~= chunks);
    } else {
        assert(chunks.drop_last().take(k) =~= chunks.take(k));
        lemma_block_match_prefix(chunks.drop_last(), k, account, method);
    }
}

/// The texts of a list of strings.
pub open spec fn lines_view(lines: Seq<String>) -> Seq<Seq<char>> {
    lines.map_values(|s: String| s@)
}

/// The log lines of a list of receipts, receipt by receipt.
pub open spec fn receipts_lines(receipts: Seq<Vec<String>>) -> Seq<Seq<char>>
    decreases receipts.len(),
{
    if receipts.len() == 0 {
        Seq::empty()
    } else {
        receipts_lines(receipts.drop_last()) + lines_view(receipts.last()@)
    }
}

/// The log lines of a transaction status: the transaction's own, then each
/// receipt's; none when the outcome is missing or only refers to a receipt.
pub open spec fn status_lines(status: TransactionStatus) -> Seq<Seq<char>> {
    match status.final_execution_outcome {
        Some(ExecutionOutcome::Resolved { transaction_logs, receipt_logs }) => lines_view(
            transaction_logs@,
        ) + receipts_lines(receipt_logs@),
        _ => Seq::empty(),
    }
}

/// The events that a sequence of log lines carries, in order; lines that do
/// not decode are left out.
pub open spec fn decoded_events(lines: Seq<Seq<char>>) -> Seq<EventView>
    decreases lines.len(),
{
    if lines.len() == 0 {
        Seq::empty()
    } else {
        decoded_events(lines.drop_last()) + match decode_log(lines.last()) {
            Some(e) => seq![e],
            None => Seq::empty(),
        }
    }
}

/// The mathematical values of a list of events.
pub open spec fn events_view(events: Seq<EventLog>) -> Seq<EventView> {
    events.map_values(|e: EventLog| e@)
}

} // verus!
