use vstd::prelude::*;

use crate::error::ListenerError;
use crate::json::{json_member, json_string, member, parsed_json, string_of};
use crate::models::{EventLog, EventView};

verus! {

/// The number of characters in `EVENT_JSON:`.
pub const EVENT_PREFIX_LEN: usize = 11;

/// The characters `EVENT_JSON:` that open every event log line.
pub open spec fn event_prefix() -> Seq<char> {
    seq!['E', 'V', 'E', 'N', 'T', '_', 'J', 'S', 'O', 'N', ':']
}

/// Whether a log line starts with the event prefix.
pub open spec fn has_event_prefix(line: Seq<char>) -> bool {
    line.len() >= event_prefix().len() && line.subrange(0, event_prefix().len() as int)
        == event_prefix()
}

/// What follows the event prefix in a line.
pub open spec fn event_payload(line: Seq<char>) -> Seq<char> {
    line.subrange(event_prefix().len() as int, line.len() as int)
}

/// The text of a string member of a JSON object.
pub open spec fn text_member(doc: serde_json::Value, key: Seq<char>) -> Option<Seq<char>> {
    match json_member(doc, key) {
        Some(v) => json_string(v),
        None => None,
    }
}

/// The event that a JSON document describes: an object whose `standard`,
/// `version` and `event` members are strings and which has a `data` member.
pub open spec fn event_of_document(doc: serde_json::Value) -> Option<EventView> {
    let standard = text_member(doc, "standard"@);
    let version = text_member(doc, "version"@);
    let event = text_member(doc, "event"@);
    let data = json_member(doc, "data"@);
    if standard is Some && version is Some && event is Some && data is Some {
        Some(
            EventView { standard: standard->0, version: version->0, event: event->0, data: data->0 },
        )
    } else {
        None
    }
}

/// The event that a log line carries, if it carries one.
pub open spec fn decode_log(line: Seq<char>) -> Option<EventView> {
    if has_event_prefix(line) {
        match parsed_json(event_payload(line)) {
            Some(doc) => event_of_document(doc),
            None => None,
        }
    } else {
        None
    }
}

/// What decoding a log line returned, in terms of its mathematical value: the
/// event, or which kind of error.
pub open spec fn decode_outcome_matches(line: Seq<char>, r: Result<EventLog, ListenerError>) -> bool {
    &&& r is Ok <==> decode_log(line) is Some
    &&& r is Ok ==> decode_log(line) == Some(r->Ok_0@)
    &&& (r matches Err(ListenerError::InvalidEventFormat(_))) <==> !has_event_prefix(line)
    &&& (r matches Err(ListenerError::JsonError(_))) <==> (has_event_prefix(line) && decode_log(
        line,
    ) is None)
}

/// Decoding a line succeeds exactly when the line opens with `EVENT_JSON:`
/// and the rest is a JSON document with string members `standard`, `version`
/// and `event` and a member `data`.
pub proof fn lemma_decode_succeeds_iff(line: Seq<char>, r: Result<EventLog, ListenerError>)
    requires
        decode_outcome_matches(line, r),
    ensures
        r is Ok <==> {
            let doc = parsed_json(event_payload(line));
            &&& has_event_prefix(line)
            &&& doc is Some
            &&& text_member(doc->0, "standard"@) is Some
            &&& text_member(doc->0, "version"@) is Some
            &&& text_member(doc->0, "event"@) is Some
            &&& json_member(doc->0, "data"@) is Some
        },
{
}

/// Decoding is deterministic: two decodings of the same line give the same
/// event, or the same kind of error.
pub proof fn lemma_decoding_deterministic(
    line: Seq<char>,
    r1: Result<EventLog, ListenerError>,
    r2: Result<EventLog, ListenerError>,
)
    requires
        decode_outcome_matches(line, r1),
        decode_outcome_matches(line, r2),
    ensures
        r1 is Ok <==> r2 is Ok,
        r1 is Ok ==> r1->Ok_0@ == r2->Ok_0@,
        (r1 matches Err(ListenerError::InvalidEventFormat(_))) <==> (r2 matches Err(
            ListenerError::InvalidEventFormat(_),
        )),
        (r1 matches Err(ListenerError::JsonError(_))) <==> (r2 matches Err(
            ListenerError::JsonError(_),
        )),
{
}

/// Whether `line` starts with `EVENT_JSON:`.
pub fn starts_with_event_prefix(line: &str) -> (r: bool)
    ensures
        r == has_event_prefix(line@),
{
    let prefix = "EVENT_JSON:";
    proof {
        reveal_strlit("EVENT_JSON:");
    }
    assert(prefix@ =~= event_prefix());
    let n = line.unicode_len();
    if n < EVENT_PREFIX_LEN {
        return false;
    }
    let mut i: usize = 0;
    while i < EVENT_PREFIX_LEN
        invariant
            0 <= i <= EVENT_PREFIX_LEN,
            n == line@.len(),
            n >= EVENT_PREFIX_LEN,
            prefix@ == event_prefix(),
            forall|j: int| 0 <= j < i ==> line@[j] == event_prefix()[j],
        decreases EVENT_PREFIX_LEN - i,
    {
        if line.get_char(i) != prefix.get_char(i) {
            return false;
        }
        i = i + 1;
    }
    assert(line@.subrange(0, EVENT_PREFIX_LEN as int) =~= event_prefix());
    true
}

/// The text of the string member `key` of `doc`.
fn text_field(doc: &serde_json::Value, key: &str) -> (r: Option<String>)
    ensures
        r is Some <==> text_member(*doc, key@) is Some,
        r is Some ==> text_member(*doc, key@) == Some(r->0@),
{
    match member(doc, key) {
        Some(v) => string_of(&v),
        None => None,
    }
}

/// Reads an event out of a parsed JSON document.
pub fn event_from_document(doc: &serde_json::Value) -> (r: Option<EventLog>)
    ensures
        r is Some <==> event_of_document(*doc) is Some,
        r is Some ==> event_of_document(*doc) == Some(r->0@),
{
    let standard = text_field(doc, "standard");
    let version = text_field(doc, "version");
    let event = text_field(doc, "event");
    let data = member(doc, "data");
    match (standard, version, event, data) {
        (Some(standard), Some(version), Some(event), Some(data)) => Some(
            EventLog { standard, version, event, data },
        ),
        _ => None,
    }
}

} // verus!
