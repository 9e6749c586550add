use sp_engine::classify::{classify_stream, StreamEvent};
use sp_engine::rows::{coerce_cell, CellProbe, FieldValue, NamedCell};

fn text_cell(name: &str, value: &str) -> NamedCell {
    NamedCell {
        name: name.to_string(),
        probe: CellProbe {
            text: Some(value.to_string()),
            int32: None,
            int64: None,
            boolean: None,
        },
    }
}

fn int32_cell(name: &str, value: i32) -> NamedCell {
    NamedCell {
        name: name.to_string(),
        probe: CellProbe { text: None, int32: Some(value), int64: None, boolean: None },
    }
}

fn status_row(flag: Option<bool>, message: Option<&str>) -> StreamEvent {
    StreamEvent::Row(vec![
        NamedCell {
            name: "retStatus".to_string(),
            probe: CellProbe { text: None, int32: None, int64: None, boolean: flag },
        },
        NamedCell {
            name: "retMessage".to_string(),
            probe: CellProbe {
                text: message.map(|m| m.to_string()),
                int32: None,
                int64: None,
                boolean: None,
            },
        },
    ])
}

#[test]
fn coercion_prefers_text() {
    // A column that reads as text and as both integer widths stays text.
    let probe = CellProbe {
        text: Some("42".to_string()),
        int32: Some(42),
        int64: Some(42),
        boolean: None,
    };
    assert!(matches!(coerce_cell(&probe), FieldValue::Text(s) if s == "42"));
}

#[test]
fn coercion_falls_through_in_order() {
    let only32 = CellProbe { text: None, int32: Some(7), int64: Some(7), boolean: None };
    assert!(matches!(coerce_cell(&only32), FieldValue::Int32(7)));
    let only64 = CellProbe { text: None, int32: None, int64: Some(7_000_000_000), boolean: None };
    assert!(matches!(coerce_cell(&only64), FieldValue::Int64(7_000_000_000)));
    let nothing = CellProbe { text: None, int32: None, int64: None, boolean: Some(true) };
    assert!(matches!(coerce_cell(&nothing), FieldValue::Null));
}

#[test]
fn empty_stream_yields_negative_default() {
    let outcome = classify_stream(&vec![]);
    assert!(!outcome.success);
    assert_eq!(outcome.message, "");
    assert!(outcome.data.is_none());
}

#[test]
fn status_only_stream_yields_its_flag_and_message() {
    let outcome = classify_stream(&vec![status_row(Some(true), Some("OK"))]);
    assert!(outcome.success);
    assert_eq!(outcome.message, "OK");
    assert!(outcome.data.is_none());
}

#[test]
fn unreadable_status_row_gets_defaults() {
    let outcome = classify_stream(&vec![status_row(None, None)]);
    assert!(!outcome.success);
    assert_eq!(outcome.message, "Unknown");
    assert!(outcome.data.is_none());
}

#[test]
fn fault_discards_collected_data() {
    let outcome = classify_stream(&vec![
        StreamEvent::Row(vec![int32_cell("rowsAffected", 1)]),
        StreamEvent::Fault("connection reset".to_string()),
    ]);
    assert!(!outcome.success);
    assert_eq!(outcome.message, "connection reset");
    assert!(outcome.data.is_none());
}

#[test]
fn fault_overrides_an_earlier_status_row() {
    let outcome = classify_stream(&vec![
        status_row(Some(true), Some("OK")),
        StreamEvent::Fault("desync".to_string()),
    ]);
    assert!(!outcome.success);
    assert_eq!(outcome.message, "desync");
    assert!(outcome.data.is_none());
}

#[test]
fn nothing_after_a_fault_is_read() {
    let outcome = classify_stream(&vec![
        StreamEvent::Fault("gone".to_string()),
        status_row(Some(true), Some("OK")),
    ]);
    assert!(!outcome.success);
    assert_eq!(outcome.message, "gone");
    assert!(outcome.data.is_none());
}

#[test]
fn status_row_position_does_not_matter() {
    // The footer arrives first; the data row after it is still kept.
    let outcome = classify_stream(&vec![
        status_row(Some(true), Some("OK")),
        StreamEvent::Row(vec![text_cell("name", "atm-7")]),
    ]);
    assert!(outcome.success);
    assert_eq!(outcome.message, "OK");
    let record = outcome.data.expect("data row is kept");
    assert!(matches!(record.get("name"), Some(FieldValue::Text(s)) if s == "atm-7"));
}

#[test]
fn last_data_row_wins() {
    let outcome = classify_stream(&vec![
        StreamEvent::Row(vec![int32_cell("n", 1)]),
        StreamEvent::Row(vec![int32_cell("n", 2)]),
        status_row(Some(true), Some("OK")),
    ]);
    let record = outcome.data.expect("a data row is kept");
    assert!(matches!(record.get("n"), Some(FieldValue::Int32(2))));
}

#[test]
fn later_column_wins_inside_one_row() {
    let outcome = classify_stream(&vec![StreamEvent::Row(vec![
        int32_cell("n", 1),
        int32_cell("n", 2),
    ])]);
    let record = outcome.data.expect("a data row is kept");
    assert!(matches!(record.get("n"), Some(FieldValue::Int32(2))));
}

#[test]
fn metadata_changes_nothing() {
    let outcome = classify_stream(&vec![
        StreamEvent::Metadata,
        status_row(Some(true), Some("OK")),
        StreamEvent::Metadata,
    ]);
    assert!(outcome.success);
    assert_eq!(outcome.message, "OK");
    assert!(outcome.data.is_none());
}

#[test]
fn missing_record_key_is_absent() {
    let outcome = classify_stream(&vec![StreamEvent::Row(vec![int32_cell("n", 1)])]);
    let record = outcome.data.expect("a data row is kept");
    assert!(record.get("other").is_none());
}
