use order_check::record::Order;
use order_check::report::{count_errors, has_errors, render_report, usize_to_string};
use order_check::validate::validate;

#[test]
fn render_report_with_no_issues() {
    let order = Order {
        event_id: Some("abc".to_string()),
        part_number: Some("ZX-9".to_string()),
        timestamp: Some("2020-01-01".to_string()),
    };
    let issues = validate(&order);

    let report = render_report(&issues);

    assert_eq!(
        report,
        "Validation report\n-----------------\nerrors: 0\ntotal issues: 0\n\n"
    );
    assert!(!has_errors(&issues));
}

#[test]
fn render_report_lists_issues_in_order() {
    let order = Order { event_id: None, part_number: None, timestamp: Some("t".to_string()) };
    let issues = validate(&order);

    let report = render_report(&issues);

    assert_eq!(
        report,
        "Validation report\n-----------------\nerrors: 2\ntotal issues: 2\n\n\
         ERROR event_id: missing required field\n\
         ERROR part_number: missing required field\n"
    );
    assert!(has_errors(&issues));
    assert_eq!(count_errors(&issues), 2);
}

#[test]
fn usize_to_string_renders_decimals() {
    assert_eq!(usize_to_string(0), "0");
    assert_eq!(usize_to_string(7), "7");
    assert_eq!(usize_to_string(10), "10");
    assert_eq!(usize_to_string(42), "42");
    assert_eq!(usize_to_string(1203), "1203");
}

#[test]
fn empty_issue_list_has_no_errors() {
    let issues = Vec::new();

    assert_eq!(count_errors(&issues), 0);
    assert!(!has_errors(&issues));
}
