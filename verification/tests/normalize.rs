use order_check::record::{clean_input, Order};

#[test]
fn clean_input_trims_and_uppercases_part_number() {
    let test_order = Order {
        event_id: Some("  abc  ".to_string()),
        part_number: Some("  zx-9  ".to_string()),
        timestamp: Some(" 2020-01-01 ".to_string()),
    };

    let cleaned = clean_input(test_order);

    assert_eq!(cleaned.event_id, Some("abc".to_string()));
    assert_eq!(cleaned.part_number, Some("ZX-9".to_string()));
    assert_eq!(cleaned.timestamp, Some("2020-01-01".to_string()));
}

#[test]
fn clean_input_convert_blank_whitespace_to_none() {
    let test_order = Order {
        event_id: Some(" ".to_string()),
        part_number: Some("  ".to_string()),
        timestamp: Some(" ".to_string()),
    };

    let cleaned = clean_input(test_order);

    assert_eq!(cleaned.event_id, None);
    assert_eq!(cleaned.part_number, None);
    assert_eq!(cleaned.timestamp, None);
}

#[test]
fn clean_input_keeps_absent_fields_absent() {
    let test_order = Order { event_id: None, part_number: None, timestamp: None };

    let cleaned = clean_input(test_order);

    assert_eq!(cleaned.event_id, None);
    assert_eq!(cleaned.part_number, None);
    assert_eq!(cleaned.timestamp, None);
}

#[test]
fn clean_input_handles_empty_strings() {
    let test_order = Order {
        event_id: Some(String::new()),
        part_number: Some(String::new()),
        timestamp: Some("x".to_string()),
    };

    let cleaned = clean_input(test_order);

    assert_eq!(cleaned.event_id, None);
    assert_eq!(cleaned.part_number, None);
    assert_eq!(cleaned.timestamp, Some("x".to_string()));
}

#[test]
fn clean_input_trims_unicode_whitespace() {
    let test_order = Order {
        event_id: Some("\u{3000}\t abc \n\u{00A0}".to_string()),
        part_number: Some("\u{2003}zx\u{2003}".to_string()),
        timestamp: Some("\u{2028}\u{205F}".to_string()),
    };

    let cleaned = clean_input(test_order);

    assert_eq!(cleaned.event_id, Some("abc".to_string()));
    assert_eq!(cleaned.part_number, Some("ZX".to_string()));
    assert_eq!(cleaned.timestamp, None);
}

#[test]
fn clean_input_is_idempotent_on_samples() {
    let make = || Order {
        event_id: Some("  abc  ".to_string()),
        part_number: Some(" zx-9".to_string()),
        timestamp: Some("  ".to_string()),
    };

    let once = clean_input(make());
    let twice = clean_input(clean_input(make()));

    assert_eq!(once.event_id, twice.event_id);
    assert_eq!(once.part_number, twice.part_number);
    assert_eq!(once.timestamp, twice.timestamp);
}

#[test]
fn clean_input_leaves_uppercase_and_symbols_alone() {
    let test_order = Order {
        event_id: Some("ID-7".to_string()),
        part_number: Some("a1-B2_c3!".to_string()),
        timestamp: Some("2020-01-01T00:00:00Z".to_string()),
    };

    let cleaned = clean_input(test_order);

    assert_eq!(cleaned.event_id, Some("ID-7".to_string()));
    assert_eq!(cleaned.part_number, Some("A1-B2_C3!".to_string()));
    assert_eq!(cleaned.timestamp, Some("2020-01-01T00:00:00Z".to_string()));
}
