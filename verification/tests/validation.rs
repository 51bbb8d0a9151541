use order_check::record::{clean_input, Order};
use order_check::validate::{validate, Issue, Severity};

#[test]
fn validate_return_zero_order() {
    let test_order = Order {
        event_id: Some("abc".to_string()),
        part_number: Some("zx-9".to_string()),
        timestamp: Some("2020-01-01".to_string()),
    };

    let issues = validate(&test_order);

    assert_eq!(issues.len(), 0);
}

#[test]
fn validate_missing_required_field() {
    let test_order = Order {
        event_id: None,
        part_number: Some("zx-9".to_string()),
        timestamp: Some("2020-01-01".to_string()),
    };

    let issues = validate(&test_order);

    assert_eq!(issues.len(), 1);
    assert_eq!(issues[0].field, "event_id");
    assert_eq!(issues[0].message, "missing required field");
}

#[test]
fn whitespace_only_become_missing_after_cleaning() {
    let test_order = Order {
        event_id: Some(" ".to_string()),
        part_number: Some("zx-9".to_string()),
        timestamp: Some("2020-01-01".to_string()),
    };

    let normalized = clean_input(test_order);
    let issues = validate(&normalized);

    assert_eq!(issues.len(), 1);
    assert_eq!(issues[0].field, "event_id");
    assert_eq!(issues[0].message, "missing required field");
}

#[test]
fn validate_must_not_be_empty() {
    let test_order = Order {
        event_id: Some(" ".to_string()),
        part_number: Some("zx-9".to_string()),
        timestamp: Some("2020-01-01".to_string()),
    };

    let issues = validate(&test_order);

    assert_eq!(issues.len(), 1);
    assert_eq!(issues[0].field, "event_id");
    assert_eq!(issues[0].message, "must not be empty");
}

#[test]
fn validate_reports_fields_in_fixed_order() {
    let test_order = Order { event_id: None, part_number: None, timestamp: None };

    let issues = validate(&test_order);

    assert_eq!(issues.len(), 3);
    assert_eq!(issues[0].field, "event_id");
    assert_eq!(issues[1].field, "part_number");
    assert_eq!(issues[2].field, "timestamp");
    for issue in &issues {
        assert_eq!(issue.message, "missing required field");
        assert!(matches!(issue.severity, Severity::Error));
    }
}

#[test]
fn validate_keeps_order_when_middle_field_is_fine() {
    let test_order = Order {
        event_id: None,
        part_number: Some("zx-9".to_string()),
        timestamp: Some("  ".to_string()),
    };

    let issues = validate(&test_order);

    assert_eq!(issues.len(), 2);
    assert_eq!(issues[0].field, "event_id");
    assert_eq!(issues[0].message, "missing required field");
    assert_eq!(issues[1].field, "timestamp");
    assert_eq!(issues[1].message, "must not be empty");
}

#[test]
fn issue_error_builds_error_severity() {
    let issue = Issue::error("event_id", "missing required field");

    assert_eq!(issue.field, "event_id");
    assert_eq!(issue.message, "missing required field");
    assert!(matches!(issue.severity, Severity::Error));
}
