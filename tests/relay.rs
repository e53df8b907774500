use kafka_rust_chat_backend::json::JsonObject;
use kafka_rust_chat_backend::ledger::SeenLedger;
use kafka_rust_chat_backend::relay::{
    accept_client_text, enrich, handle_client_text, route_record, HUB_CAPACITY, RECORD_KEY, TOPIC,
};
use serde_json::Value;

fn object(text: &str) -> JsonObject {
    match serde_json::from_str::<Value>(text).unwrap() {
        Value::Object(m) => m,
        _ => panic!("not an object"),
    }
}

fn seen(ledger: &SeenLedger, id: &str) -> bool {
    ledger.has_seen(&id.to_string())
}

#[test]
fn new_ledger_is_empty() {
    let ledger = SeenLedger::new();
    assert!(!seen(&ledger, "a"));
    assert!(!seen(&ledger, ""));
}

#[test]
fn mark_seen_twice_has_one_effect() {
    let mut ledger = SeenLedger::new();
    ledger.mark_seen("x".to_string());
    assert!(seen(&ledger, "x"));
    ledger.mark_seen("x".to_string());
    assert!(seen(&ledger, "x"));
    assert!(!seen(&ledger, "y"));
    assert!(!ledger.check_and_mark("x".to_string()));
}

#[test]
fn check_and_mark_reports_first_time_only() {
    let mut ledger = SeenLedger::new();
    assert!(ledger.check_and_mark("a".to_string()));
    assert!(ledger.check_and_mark("b".to_string()));
    assert!(!ledger.check_and_mark("a".to_string()));
    assert!(!ledger.check_and_mark("b".to_string()));
    assert!(seen(&ledger, "a") && seen(&ledger, "b"));
}

#[test]
fn enrich_adds_id_and_timestamp() {
    let mut m = object(r#"{"text":"hi","n":3}"#);
    enrich(&mut m, "id-1".to_string(), "2024-01-01T00:00:00+00:00".to_string());
    assert_eq!(m.len(), 4);
    assert_eq!(m["text"], Value::String("hi".to_string()));
    assert_eq!(m["n"], Value::from(3));
    assert_eq!(m["id"], Value::String("id-1".to_string()));
    assert_eq!(m["timestamp"], Value::String("2024-01-01T00:00:00+00:00".to_string()));
}

#[test]
fn enrich_overwrites_client_id_and_timestamp() {
    let mut m = object(r#"{"id":"forged","timestamp":7,"text":"hi"}"#);
    enrich(&mut m, "real".to_string(), "now".to_string());
    assert_eq!(m.len(), 3);
    assert_eq!(m["id"], Value::String("real".to_string()));
    assert_eq!(m["timestamp"], Value::String("now".to_string()));
    assert_eq!(m["text"], Value::String("hi".to_string()));
}

#[test]
fn accept_client_text_enriches_and_marks() {
    let mut ledger = SeenLedger::new();
    let p = accept_client_text(&mut ledger, r#"{"text":"hi"}"#, "abc".to_string(), "t0".to_string());
    let p = p.unwrap();
    assert_eq!(p, r#"{"id":"abc","text":"hi","timestamp":"t0"}"#);
    assert!(seen(&ledger, "abc"));
}

#[test]
fn accept_client_text_drops_malformed() {
    let mut ledger = SeenLedger::new();
    assert_eq!(accept_client_text(&mut ledger, "not json", "a".to_string(), "t".to_string()), None);
    assert_eq!(accept_client_text(&mut ledger, "{\"text\":", "b".to_string(), "t".to_string()), None);
    assert_eq!(accept_client_text(&mut ledger, "[1,2]", "c".to_string(), "t".to_string()), None);
    assert_eq!(accept_client_text(&mut ledger, "5", "d".to_string(), "t".to_string()), None);
    assert!(!seen(&ledger, "a") && !seen(&ledger, "b") && !seen(&ledger, "c") && !seen(&ledger, "d"));
}

#[test]
fn handle_client_text_assigns_fresh_ids() {
    let mut ledger = SeenLedger::new();
    let a = handle_client_text(&mut ledger, r#"{"text":"hi"}"#).unwrap();
    let b = handle_client_text(&mut ledger, r#"{"text":"hi"}"#).unwrap();
    let a = object(&a);
    let b = object(&b);
    let ida = a["id"].as_str().unwrap().to_string();
    let idb = b["id"].as_str().unwrap().to_string();
    assert_eq!(ida.len(), 36);
    for (i, c) in ida.chars().enumerate() {
        if i == 8 || i == 13 || i == 18 || i == 23 {
            assert_eq!(c, '-');
        } else {
            assert!(c.is_ascii_digit() || ('a'..='f').contains(&c));
        }
    }
    assert_ne!(ida, idb);
    assert_eq!(a["text"], Value::String("hi".to_string()));
    assert!(a["timestamp"].is_string());
    assert!(seen(&ledger, &ida) && seen(&ledger, &idb));
    assert_eq!(handle_client_text(&mut ledger, "oops"), None);
}

#[test]
fn route_record_forwards_new_ids_once() {
    let mut ledger = SeenLedger::new();
    let record = r#"{"id":"r1","text":"from elsewhere"}"#;
    assert!(route_record(&mut ledger, record));
    assert!(seen(&ledger, "r1"));
    assert!(!route_record(&mut ledger, record));
}

#[test]
fn route_record_drops_records_without_id() {
    let mut ledger = SeenLedger::new();
    assert!(!route_record(&mut ledger, "garbage"));
    assert!(!route_record(&mut ledger, r#"{"text":"no id"}"#));
    assert!(!route_record(&mut ledger, r#"{"id":42}"#));
    assert!(!route_record(&mut ledger, r#"["id"]"#));
    assert!(!seen(&ledger, "42"));
}

#[test]
fn own_message_read_back_is_not_rebroadcast() {
    let mut ledger = SeenLedger::new();
    let payload = handle_client_text(&mut ledger, r#"{"text":"hi"}"#).unwrap();
    // the local echo is the one delivery; the copy read back from the topic is dropped
    assert!(!route_record(&mut ledger, &payload));
    let other = r#"{"id":"someone-else","text":"yo"}"#;
    assert!(route_record(&mut ledger, other));
}

#[test]
fn topic_settings() {
    assert_eq!(TOPIC, "chat-room");
    assert_eq!(RECORD_KEY, "chat");
    assert_eq!(HUB_CAPACITY, 100);
}

#[test]
fn broadcast_reaches_every_subscriber() {
    let (tx, _rx) = tokio::sync::broadcast::channel::<String>(HUB_CAPACITY);
    let mut subscribers: Vec<_> = (0..3).map(|_| tx.subscribe()).collect();
    assert_eq!(tx.send("m".to_string()).unwrap(), 4);
    for rx in subscribers.iter_mut() {
        assert_eq!(rx.try_recv().unwrap(), "m");
    }
}
