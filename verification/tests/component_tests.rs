use steinbock_kalender::calendar::{
    serialize_calendar, CalendarDocument, TimezoneDefinition, TimezoneRule,
};
use steinbock_kalender::dates::create_timestamp;
use steinbock_kalender::event::build_event;
use steinbock_kalender::errors::{FeedError, MissingField};
use steinbock_kalender::ident::create_uid;

fn vienna_document(events: Vec<steinbock_kalender::event::EventRecord>) -> CalendarDocument {
    CalendarDocument {
        version: "2.0".to_string(),
        product_id: "steinbock-kalender".to_string(),
        timezone: TimezoneDefinition {
            name: "Europe/Vienna".to_string(),
            rule: TimezoneRule {
                start: "19961027T030000".to_string(),
                offset_from: "+0100".to_string(),
                offset_to: "+0200".to_string(),
            },
        },
        events,
    }
}

#[test]
fn normalizes_standard_date() {
    assert_eq!(create_timestamp("05.03.2024".to_string()), "20240305");
}

#[test]
fn normalizes_any_three_segment_token() {
    assert_eq!(create_timestamp("a.bb.cccc".to_string()), "ccccbba");
    assert_eq!(create_timestamp("1.2".to_string()), "21");
    assert_eq!(create_timestamp("nodots".to_string()), "nodots");
    assert_eq!(create_timestamp("".to_string()), "");
    assert_eq!(create_timestamp("..".to_string()), "");
}

#[test]
fn distinct_dates_normalize_distinctly() {
    let a = create_timestamp("05.03.2024".to_string());
    let b = create_timestamp("03.05.2024".to_string());
    assert_ne!(a, b);
}

#[test]
fn uid_concatenates_timestamp_then_label() {
    assert_eq!(
        create_uid("Nord".to_string(), "20240305T124650Z".to_string()),
        "20240305T124650ZNord"
    );
}

#[test]
fn uid_strips_all_whitespace() {
    assert_eq!(
        create_uid("Nord West".to_string(), "2024 0305\tT12\n4650Z".to_string()),
        "20240305T124650ZNordWest"
    );
    assert_eq!(
        create_uid("A\u{a0}B\u{2003}C".to_string(), "\u{3000}T\u{2028}".to_string()),
        "TABC"
    );
}

#[test]
fn uid_is_deterministic() {
    let a = create_uid("S\u{fc}d Ost".to_string(), "20240312T124650Z".to_string());
    let b = create_uid("S\u{fc}d Ost".to_string(), "20240312T124650Z".to_string());
    assert_eq!(a, b);
    assert!(a.chars().all(|c| !c.is_whitespace()));
}

#[test]
fn event_of_complete_row() {
    let row = vec!["05.03.2024".to_string(), "Nord".to_string()];
    let e = build_event(&row, 1).expect("row is complete");
    assert_eq!(e.uid, "20240305T124650ZNord");
    assert_eq!(e.timestamp, "20240305T124650Z");
    assert_eq!(e.summary, "Steinbock schraubt: Nord");
    assert_eq!(e.start, "20240305");
    assert_eq!(e.end, "20240305");
    assert_eq!(e.start, e.end);
}

#[test]
fn event_of_incomplete_row() {
    assert_eq!(
        build_event(&vec![], 3).unwrap_err(),
        FeedError::Row { missing: MissingField::Date, row_index: 3 }
    );
    assert_eq!(
        build_event(&vec!["05.03.2024".to_string()], 4).unwrap_err(),
        FeedError::Row { missing: MissingField::Section, row_index: 4 }
    );
}

#[test]
fn empty_document_serializes_header_and_timezone_only() {
    let text = serialize_calendar(&vienna_document(vec![]));
    let expected = "BEGIN:VCALENDAR\r\n\
        VERSION:2.0\r\n\
        PRODID:steinbock-kalender\r\n\
        BEGIN:VTIMEZONE\r\n\
        TZID:Europe/Vienna\r\n\
        BEGIN:STANDARD\r\n\
        DTSTART:19961027T030000\r\n\
        TZOFFSETFROM:+0100\r\n\
        TZOFFSETTO:+0200\r\n\
        END:STANDARD\r\n\
        END:VTIMEZONE\r\n\
        END:VCALENDAR\r\n";
    assert_eq!(text, expected);
}

#[test]
fn serialization_is_deterministic() {
    let row = vec!["05.03.2024".to_string(), "Nord".to_string()];
    let e1 = build_event(&row, 1).unwrap();
    let e2 = build_event(&row, 1).unwrap();
    let t1 = serialize_calendar(&vienna_document(vec![e1]));
    let t2 = serialize_calendar(&vienna_document(vec![e2]));
    assert_eq!(t1, t2);
}
