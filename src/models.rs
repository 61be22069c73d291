use vstd::prelude::*;

verus! {

/// One decoded event, as found after the `EVENT_JSON:` prefix of a log line.
#[derive(Debug, Clone, PartialEq)]
pub struct EventLog {
    pub standard: String,
    pub version: String,
    pub event: String,
    /// The event's payload: any JSON value.
    pub data: serde_json::Value,
}

/// The mathematical value of an [`EventLog`].
pub struct EventView {
    pub standard: Seq<char>,
    pub version: Seq<char>,
    pub event: Seq<char>,
    pub data: serde_json::Value,
}

impl View for EventLog {
    type V = EventView;

    open spec fn view(&self) -> EventView {
        EventView {
            standard: self.standard@,
            version: self.version@,
            event: self.event@,
            data: self.data,
        }
    }
}

} // verus!

verus! {

/// An action of a transaction, as far as the listener looks at it.
#[derive(Debug, Clone)]
pub enum ActionSnapshot {
    /// A call of the named method on the transaction's receiver.
    FunctionCall { method_name: String },
    /// Any other kind of action.
    Other,
}

/// A transaction as listed in a chunk.
#[derive(Debug, Clone)]
pub struct TransactionSnapshot {
    /// The transaction hash in its base58 text form.
    pub hash: String,
    pub signer_id: String,
    pub receiver_id: String,
    pub actions: Vec<ActionSnapshot>,
}

/// A chunk: the transactions it lists, in order.
#[derive(Debug, Clone)]
pub struct ChunkSnapshot {
    pub transactions: Vec<TransactionSnapshot>,
}

/// A block: its height and the hashes of its chunks, in order.
#[derive(Debug, Clone)]
pub struct BlockSnapshot {
    pub height: u64,
    pub chunks: Vec<String>,
}

/// The final execution outcome of a transaction.
#[derive(Debug, Clone)]
pub enum ExecutionOutcome {
    /// The fully resolved outcome: the transaction's own log lines and those
    /// of each receipt it produced, in the order the node lists them.
    Resolved { transaction_logs: Vec<String>, receipt_logs: Vec<Vec<String>> },
    /// An outcome that only refers to a receipt; it carries no log lines.
    ReceiptOnly,
}

/// The node's answer to a transaction status request.
#[derive(Debug, Clone)]
pub struct TransactionStatus {
    pub final_execution_outcome: Option<ExecutionOutcome>,
}

/// The block to ask the node for.
#[derive(Debug, Clone, Copy, PartialEq, Eq)]
pub enum BlockRef {
    /// The latest final block.
    Final,
    /// The block at this height.
    Height(u64),
}

/// Why a block request failed.
#[derive(Debug, Clone)]
pub enum BlockFetchError {
    /// The node does not know a block at the requested height (yet).
    UnknownBlock,
    /// The node answered with another block error; holds its description.
    Handler(String),
    /// The transport answered with a non-success HTTP status; holds the status.
    ResponseStatus(String),
    /// Any other failure; holds its description.
    Other(String),
}

} // verus!
