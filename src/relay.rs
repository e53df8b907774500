//! The relay's handling of one message: a client's text is enriched, marked
//! and handed on; a record of the topic is handed on once.
use vstd::prelude::*;
use crate::json::{
    get_field, insert_field, json_string, object_fields, object_text, parse_object, parsed_object,
    string_in, string_of, string_value, write_object, JsonObject,
};
use crate::ledger::SeenLedger;
use crate::mint::{fresh_id, is_hyphenated_id, now_rfc3339};

verus! {

/// The topic that every relay publishes to and reads from.
pub const TOPIC: &'static str = "chat-room";

/// The key of every record published.
pub const RECORD_KEY: &'static str = "chat";

/// How many payloads the local broadcast holds for a subscriber that lags.
pub const HUB_CAPACITY: usize = 100;

/// The name of the identifier field.
pub open spec fn id_key() -> Seq<char> {
    seq!['i', 'd']
}

/// The name of the timestamp field.
pub open spec fn timestamp_key() -> Seq<char> {
    seq!['t', 'i', 'm', 'e', 's', 't', 'a', 'm', 'p']
}

/// The fields of a client's payload once the relay has given it an identifier
/// and a timestamp.
pub open spec fn enriched(
    fields: Map<Seq<char>, serde_json::Value>,
    id: Seq<char>,
    timestamp: Seq<char>,
) -> Map<Seq<char>, serde_json::Value> {
    fields.insert(id_key(), json_string(id)).insert(timestamp_key(), json_string(timestamp))
}

/// The payload that the relay publishes and broadcasts for a client's text,
/// given the identifier and timestamp it assigns; `None` where the text is no
/// JSON object.
pub open spec fn client_payload(text: Seq<char>, id: Seq<char>, timestamp: Seq<char>) -> Option<Seq<char>> {
    match parsed_object(text) {
        Some(fields) => Some(object_text(enriched(fields, id, timestamp))),
        None => None,
    }
}

/// The identifier that a record of the topic carries: its `id` field, where
/// the record is a JSON object and that field is a string.
pub open spec fn record_id(text: Seq<char>) -> Option<Seq<char>> {
    match parsed_object(text) {
        Some(fields) => if fields.contains_key(id_key()) {
            string_of(fields[id_key()])
        } else {
            None
        },
        None => None,
    }
}

/// Whether a record is handed on to the local connections, given the
/// identifiers seen before it.
pub open spec fn record_forwarded(seen: Set<Seq<char>>, text: Seq<char>) -> bool {
    match record_id(text) {
        Some(x) => !seen.contains(x),
        None => false,
    }
}

/// The identifiers seen after a record, given those seen before it.
pub open spec fn seen_after_record(seen: Set<Seq<char>>, text: Seq<char>) -> Set<Seq<char>> {
    match record_id(text) {
        Some(x) => seen.insert(x),
        None => seen,
    }
}

/// Sets the `id` and `timestamp` fields of a payload, added or overwritten;
/// the other fields stay as they are.
pub fn enrich(m: &mut JsonObject, id: String, timestamp: String)
    ensures
        object_fields(*final(m)) == enriched(object_fields(*old(m)), id@, timestamp@),
{
    let id_name = String::from_str("id");
    let ts_name = String::from_str("timestamp");
    proof {
        reveal_strlit("id");
        reveal_strlit("timestamp");
        assert(id_name@ == id_key());
        assert(ts_name@ == timestamp_key());
    }
    let id_value = string_value(id);
    insert_field(m, id_name, id_value);
    let ts_value = string_value(timestamp);
    insert_field(m, ts_name, ts_value);
}

/// Takes a client's text, with the identifier and timestamp assigned to it:
/// where the text is a JSON object, marks the identifier as seen and returns
/// the payload to publish and broadcast, the written enriched object; else
/// returns `None` and marks nothing.
pub fn accept_client_text(ledger: &mut SeenLedger, text: &str, id: String, timestamp: String) -> (r: Option<String>)
    requires
        old(ledger).wf(),
    ensures
        final(ledger).wf(),
        match r {
            Some(p) => client_payload(text@, id@, timestamp@) == Some(p@)
                && final(ledger)@ == old(ledger)@.insert(id@),
            None => client_payload(text@, id@, timestamp@) is None
                && final(ledger)@ == old(ledger)@,
        },
{
    match parse_object(text) {
        None => None,
        Some(mut m) => {
            let key = id.clone();
            enrich(&mut m, id, timestamp);
            let payload = write_object(&m);
            ledger.mark_seen(key);
            Some(payload)
        },
    }
}

/// Takes a client's text: gives it a fresh identifier and the time now, and
/// proceeds as `accept_client_text`.
pub fn handle_client_text(ledger: &mut SeenLedger, text: &str) -> (r: Option<String>)
    requires
        old(ledger).wf(),
    ensures
        final(ledger).wf(),
        r is Some <==> parsed_object(text@) is Some,
        match r {
            Some(p) => exists|id: Seq<char>, ts: Seq<char>|
                is_hyphenated_id(id) && client_payload(text@, id, ts) == Some(p@)
                    && final(ledger)@ == old(ledger)@.insert(id),
            None => final(ledger)@ == old(ledger)@,
        },
{
    let id = fresh_id();
    let timestamp = now_rfc3339();
    let ghost (i, t) = (id@, timestamp@);
    let r = accept_client_text(ledger, text, id, timestamp);
    proof {
        if r is Some {
            assert(client_payload(text@, i, t) == Some(r.unwrap()@));
        }
    }
    r
}

/// Takes a record of the topic: where it carries an identifier not seen
/// before, marks it and returns `true`, so that the record is broadcast to
/// the local connections; records that are no JSON object, carry no string
/// `id`, or were seen already, are dropped.
pub fn route_record(ledger: &mut SeenLedger, text: &str) -> (forward: bool)
    requires
        old(ledger).wf(),
    ensures
        final(ledger).wf(),
        forward == record_forwarded(old(ledger)@, text@),
        final(ledger)@ == seen_after_record(old(ledger)@, text@),
{
    match parse_object(text) {
        None => false,
        Some(m) => {
            proof {
                reveal_strlit("id");
                assert("id"@ =~= id_key());
            }
            match get_field(&m, "id") {
                None => false,
                Some(v) => match string_in(v) {
                    None => false,
                    Some(id) => ledger.check_and_mark(id),
                },
            }
        },
    }
}

/// Enrichment adds or overwrites exactly the `id` and `timestamp` fields:
/// they hold the assigned identifier and timestamp, every other field of the
/// client's payload is kept with its value, and no other field is added.
pub proof fn law_enrichment(fields: Map<Seq<char>, serde_json::Value>, id: Seq<char>, timestamp: Seq<char>)
    ensures
        enriched(fields, id, timestamp)[id_key()] == json_string(id),
        enriched(fields, id, timestamp)[timestamp_key()] == json_string(timestamp),
        enriched(fields, id, timestamp).dom() == fields.dom().insert(id_key()).insert(timestamp_key()),
        forall|k: Seq<char>|
            k != id_key() && k != timestamp_key() && #[trigger] fields.contains_key(k)
                ==> enriched(fields, id, timestamp)[k] == fields[k],
{
    assert(id_key().len() != timestamp_key().len());
    assert(enriched(fields, id, timestamp).dom() =~= fields.dom().insert(id_key()).insert(timestamp_key()));
}

/// A record whose identifier was seen already is never broadcast again, and
/// leaves the seen identifiers as they were.
pub proof fn law_seen_record_dropped(seen: Set<Seq<char>>, record: Seq<char>)
    requires
        record_id(record) is Some,
        seen.contains(record_id(record).unwrap()),
    ensures
        !record_forwarded(seen, record),
        seen_after_record(seen, record) == seen,
{
    assert(seen.insert(record_id(record).unwrap()) =~= seen);
}

/// A client's message reaches the local connections once: the relay
/// broadcasts it when it accepts it, marking its identifier, and a record of
/// the topic that carries that identifier, read back at any later point, is
/// not broadcast again.
pub proof fn law_no_self_loop(
    seen: Set<Seq<char>>,
    text: Seq<char>,
    id: Seq<char>,
    timestamp: Seq<char>,
    later: Set<Seq<char>>,
    record: Seq<char>,
)
    requires
        client_payload(text, id, timestamp) is Some,
        seen.insert(id).subset_of(later),
        record_id(record) == Some(id),
    ensures
        !record_forwarded(later, record),
        seen_after_record(later, record) == later,
{
    assert(later.contains(id));
    law_seen_record_dropped(later, record);
}

/// The seen identifiers never shrink: a record leaves every identifier seen
/// before it seen after it.
pub proof fn law_seen_grows(seen: Set<Seq<char>>, record: Seq<char>)
    ensures
        seen.subset_of(seen_after_record(seen, record)),
{
}

} // verus!
