use provn_sdk::claim::timestamp_of;
use provn_sdk::Claim;
use serde_json::Value;

fn canonical_text(claim: &Claim) -> String {
    String::from_utf8(claim.to_signable_bytes().expect("canonical form")).expect("UTF-8")
}

fn claim_of(data: &str, metadata: Option<&str>, timestamp: u64) -> Claim {
    Claim {
        data: data.to_string(),
        metadata: metadata.map(|m| m.to_string()),
        timestamp,
    }
}

/// The same object written by serde_json, whose maps keep their keys sorted.
fn reference_text(claim: &Claim) -> String {
    let mut object = serde_json::Map::new();
    object.insert("timestamp".to_string(), Value::from(claim.timestamp));
    if let Some(m) = &claim.metadata {
        object.insert("metadata".to_string(), Value::from(m.as_str()));
    }
    object.insert("data".to_string(), Value::from(claim.data.as_str()));
    serde_json::to_string(&Value::Object(object)).expect("reference form")
}

#[test]
fn canonical_form_without_metadata() {
    let claim = Claim::new_with_timestamp("Hello World".to_string(), 123456789);
    assert_eq!(canonical_text(&claim), r#"{"data":"Hello World","timestamp":123456789}"#);
}

#[test]
fn canonical_form_is_the_same_on_every_call() {
    let first = claim_of("same", Some("note"), 42);
    let second = claim_of("same", Some("note"), 42);
    assert_eq!(first.to_signable_bytes().unwrap(), first.to_signable_bytes().unwrap());
    assert_eq!(first.to_signable_bytes().unwrap(), second.to_signable_bytes().unwrap());
}

#[test]
fn canonical_form_tells_claims_apart() {
    let base = claim_of("a", None, 1);
    let others = [
        claim_of("b", None, 1),
        claim_of("a", Some(""), 1),
        claim_of("a", None, 2),
        claim_of("a\",\"timestamp\":1}", None, 1),
        claim_of("a", Some("\",\"timestamp\":1}"), 1),
    ];
    for other in others.iter() {
        assert_ne!(base.to_signable_bytes().unwrap(), other.to_signable_bytes().unwrap());
    }
}

#[test]
fn absent_metadata_leaves_no_member() {
    let plain = claim_of("no note here", None, 7);
    assert!(!canonical_text(&plain).contains("metadata"));
    assert!(!canonical_text(&plain).contains("null"));

    // Text that spells the member out stays inside the string, escaped.
    let tricky = claim_of("\"metadata\":\"x\"", None, 7);
    let text = canonical_text(&tricky);
    assert_eq!(text, r#"{"data":"\"metadata\":\"x\"","timestamp":7}"#);
    assert!(!text.contains("\"metadata\":"));
}

#[test]
fn empty_metadata_is_not_absent_metadata() {
    let claim = claim_of("d", Some(""), 0);
    assert_eq!(canonical_text(&claim), r#"{"data":"d","metadata":"","timestamp":0}"#);
}

#[test]
fn strings_are_escaped_as_json() {
    let claim = claim_of("q\" b\\ /", Some("\u{8}\t\n\u{c}\r"), 5);
    assert_eq!(
        canonical_text(&claim),
        "{\"data\":\"q\\\" b\\\\ /\",\"metadata\":\"\\b\\t\\n\\f\\r\",\"timestamp\":5}"
    );
}

#[test]
fn control_bytes_are_written_as_unicode_escapes() {
    let claim = claim_of("\u{0}\u{1}\u{b}\u{1f}\u{7f}", None, 5);
    assert_eq!(
        canonical_text(&claim),
        "{\"data\":\"\\u0000\\u0001\\u000b\\u001f\u{7f}\",\"timestamp\":5}"
    );
}

#[test]
fn text_beyond_ascii_is_written_as_it_is() {
    let claim = claim_of("é ✓ 😀 \u{2028}", Some("日本語"), 5);
    assert_eq!(
        canonical_text(&claim),
        "{\"data\":\"é ✓ 😀 \u{2028}\",\"metadata\":\"日本語\",\"timestamp\":5}"
    );
}

#[test]
fn timestamp_is_a_bare_decimal_number() {
    assert_eq!(canonical_text(&claim_of("", None, 0)), r#"{"data":"","timestamp":0}"#);
    assert_eq!(canonical_text(&claim_of("", None, 9)), r#"{"data":"","timestamp":9}"#);
    assert_eq!(canonical_text(&claim_of("", None, 10)), r#"{"data":"","timestamp":10}"#);
    assert_eq!(canonical_text(&claim_of("", None, 1005)), r#"{"data":"","timestamp":1005}"#);
    assert_eq!(
        canonical_text(&claim_of("", None, u64::MAX)),
        r#"{"data":"","timestamp":18446744073709551615}"#
    );
}

#[test]
fn canonical_form_agrees_with_serde_json() {
    let mut every_ascii = String::new();
    for code in 0u8..128 {
        every_ascii.push(code as char);
    }
    let texts = [
        "",
        "plain",
        "with \"quotes\" and \\ backslashes",
        "line\nbreak\ttab",
        "é ✓ 😀 \u{2028}\u{2029}\u{feff}",
        every_ascii.as_str(),
    ];
    let times = [0u64, 1, 99, 100, 1234567890, u64::MAX];
    for data in texts.iter() {
        for time in times.iter() {
            let without = claim_of(data, None, *time);
            assert_eq!(canonical_text(&without), reference_text(&without));
            for metadata in texts.iter() {
                let with = claim_of(data, Some(metadata), *time);
                assert_eq!(canonical_text(&with), reference_text(&with));
            }
        }
    }
}

#[test]
fn new_with_timestamp_sets_the_fields() {
    let claim = Claim::new_with_timestamp("payload".to_string(), 77);
    assert_eq!(claim.data, "payload");
    assert_eq!(claim.metadata, None);
    assert_eq!(claim.timestamp, 77);
}

#[test]
fn new_takes_the_time_from_the_clock() {
    let before = std::time::SystemTime::now()
        .duration_since(std::time::UNIX_EPOCH)
        .unwrap()
        .as_secs();
    let claim = Claim::new("payload".to_string());
    let after = std::time::SystemTime::now()
        .duration_since(std::time::UNIX_EPOCH)
        .unwrap()
        .as_secs();
    assert_eq!(claim.data, "payload");
    assert_eq!(claim.metadata, None);
    assert!(before <= claim.timestamp && claim.timestamp <= after);
}

#[test]
fn a_clone_of_a_claim_equals_it() {
    let claim = claim_of("d", Some("m"), 3);
    assert_eq!(claim.clone(), claim);
}

#[test]
fn a_clock_before_the_epoch_gives_zero() {
    assert_eq!(timestamp_of(None), 0);
    assert_eq!(timestamp_of(Some(0)), 0);
    assert_eq!(timestamp_of(Some(1700000000)), 1700000000);
    assert_eq!(timestamp_of(Some(u64::MAX)), u64::MAX);
}
