//! Follows a NEAR chain block by block, finds the transactions that call a
//! configured method on a configured account, and decodes the `EVENT_JSON:`
//! events that their execution logged.
//!
//! The network work (fetching blocks, chunks and transaction outcomes, and
//! sleeping between polls) is left to the embedding program, which drives the
//! verified decision machine of [`NearEventListener::poll_step`].

mod error;
mod events;
mod json;
mod listener;
mod models;
mod polling;
mod scan;

pub use error::ListenerError;
pub use events::{
    decode_log, decode_outcome_matches, event_from_document, event_of_document, event_payload,
    event_prefix, has_event_prefix, lemma_decode_succeeds_iff, lemma_decoding_deterministic,
    starts_with_event_prefix, text_member, EVENT_PREFIX_LEN,
};
pub use json::{json_member, json_string, parsed_json};
pub use listener::{
    block_reference_for, lemma_block_reference, status_events, BlockRecovery, BuilderView,
    NearEventListener, NearEventListenerBuilder, SERVER_ERROR_BACKOFF_SECS,
};
pub use models::{
    ActionSnapshot, BlockFetchError, BlockRef, BlockSnapshot, ChunkSnapshot, EventLog, EventView,
    ExecutionOutcome, TransactionSnapshot, TransactionStatus,
};
pub use polling::{
    accepts, awaits, finishes_block, lemma_cursor_updates, requests_chunk, stage_wf, step_post,
    PollAction, PollReply, PollStage, POLL_INTERVAL_SECS, SETTLE_DELAY_SECS,
};
pub use scan::{
    block_match, chunk_match, decoded_events, events_view, is_call_of, lemma_block_match_prefix,
    lemma_chunk_match_prefix, lines_view, match_view, receipts_lines, status_lines, tx_matches,
};
