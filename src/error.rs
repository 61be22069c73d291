use vstd::prelude::*;

verus! {

/// The ways in which building a listener, decoding a log line or talking to
/// the node can fail.
#[derive(Debug)]
pub enum ListenerError {
    /// A call to the node failed in a way that stops the listener.
    RpcError(String),
    /// A log line that does not carry the `EVENT_JSON:` prefix.
    InvalidEventFormat(String),
    /// A log line whose payload is not a well-formed event object; holds the
    /// JSON parser's diagnostic.
    JsonError(serde_json::Error),
    /// A required builder field was left empty; holds the field's name.
    MissingField(String),
}

} // verus!
