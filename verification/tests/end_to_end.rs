use order_check::pipeline::process_record;
use order_check::record::{clean_input, Order};

fn order_from_json(raw: &str) -> Order {
    let value: serde_json::Value = serde_json::from_str(raw).expect("invalid JSON");
    let field = |key: &str| value.get(key).and_then(|v| v.as_str()).map(|s| s.to_string());
    Order {
        event_id: field("event_id"),
        part_number: field("part_number"),
        timestamp: field("timestamp"),
    }
}

#[test]
fn valid_document_passes_with_empty_report() {
    let raw = r#"{"event_id":"  abc  ","part_number":"  zx-9  ","timestamp":" 2020-01-01 "}"#;
    let order = order_from_json(raw);

    let normalized = clean_input(order_from_json(raw));
    assert_eq!(normalized.event_id, Some("abc".to_string()));
    assert_eq!(normalized.part_number, Some("ZX-9".to_string()));
    assert_eq!(normalized.timestamp, Some("2020-01-01".to_string()));

    let (report, failed) = process_record(order);
    assert_eq!(
        report,
        "Validation report\n-----------------\nerrors: 0\ntotal issues: 0\n\n"
    );
    assert!(!failed);
}

#[test]
fn blank_identifier_fails_with_one_issue() {
    let raw = r#"{"event_id":" ","part_number":"zx-9","timestamp":"2020-01-01"}"#;
    let order = order_from_json(raw);

    let (report, failed) = process_record(order);

    assert_eq!(
        report,
        "Validation report\n-----------------\nerrors: 1\ntotal issues: 1\n\n\
         ERROR event_id: missing required field\n"
    );
    assert!(failed);
}

#[test]
fn unknown_keys_are_ignored_and_missing_keys_are_absent() {
    let raw = r#"{"event_id":"abc","color":"red"}"#;
    let order = order_from_json(raw);

    assert_eq!(order.event_id, Some("abc".to_string()));
    assert_eq!(order.part_number, None);
    assert_eq!(order.timestamp, None);

    let (_, failed) = process_record(order);
    assert!(failed);
}

#[test]
fn directory_of_two_files_reports_each_and_fails_overall() {
    let docs = [
        ("a.json", r#"{"event_id":"abc","part_number":"zx-9","timestamp":"2020-01-01"}"#),
        ("b.json", r#"{"event_id":"abc","timestamp":"2020-01-01"}"#),
    ];

    let mut output = String::new();
    let mut any_failed = false;
    for (name, raw) in docs {
        let (report, failed) = process_record(order_from_json(raw));
        output.push_str(&format!("== {} ==\n", name));
        output.push_str(&report);
        any_failed = any_failed || failed;
    }

    assert_eq!(
        output,
        "== a.json ==\n\
         Validation report\n-----------------\nerrors: 0\ntotal issues: 0\n\n\
         == b.json ==\n\
         Validation report\n-----------------\nerrors: 1\ntotal issues: 1\n\n\
         ERROR part_number: missing required field\n"
    );
    assert!(any_failed);
}
