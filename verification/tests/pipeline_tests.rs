use steinbock_kalender::feed::{build_feed, feed_from_rows};
use steinbock_kalender::errors::{FeedError, MissingField};

const TWO_ROW_HTML: &str = "<html><body><table>\
    <tr><td>Datum</td><td>Sektion</td></tr>\
    <tr><td>05.03.2024</td><td>Nord</td></tr>\
    <tr><td>12.03.2024</td><td>S\u{fc}d</td></tr>\
    </table></body></html>";

fn expected_two_row_feed() -> String {
    let mut s = String::new();
    s.push_str("BEGIN:VCALENDAR\r\n");
    s.push_str("VERSION:2.0\r\n");
    s.push_str("PRODID:steinbock-kalender\r\n");
    s.push_str("BEGIN:VTIMEZONE\r\n");
    s.push_str("TZID:Europe/Vienna\r\n");
    s.push_str("BEGIN:STANDARD\r\n");
    s.push_str("DTSTART:19961027T030000\r\n");
    s.push_str("TZOFFSETFROM:+0100\r\n");
    s.push_str("TZOFFSETTO:+0200\r\n");
    s.push_str("END:STANDARD\r\n");
    s.push_str("END:VTIMEZONE\r\n");
    s.push_str("BEGIN:VEVENT\r\n");
    s.push_str("UID:20240305T124650ZNord\r\n");
    s.push_str("DTSTAMP:20240305T124650Z\r\n");
    s.push_str("SUMMARY:Steinbock schraubt: Nord\r\n");
    s.push_str("DTSTART;VALUE=DATE:20240305\r\n");
    s.push_str("DTEND;VALUE=DATE:20240305\r\n");
    s.push_str("END:VEVENT\r\n");
    s.push_str("BEGIN:VEVENT\r\n");
    s.push_str("UID:20240312T124650ZS\u{fc}d\r\n");
    s.push_str("DTSTAMP:20240312T124650Z\r\n");
    s.push_str("SUMMARY:Steinbock schraubt: S\u{fc}d\r\n");
    s.push_str("DTSTART;VALUE=DATE:20240312\r\n");
    s.push_str("DTEND;VALUE=DATE:20240312\r\n");
    s.push_str("END:VEVENT\r\n");
    s.push_str("END:VCALENDAR\r\n");
    s
}

#[test]
fn feed_of_two_data_rows_has_two_events_in_order() {
    let text = build_feed(TWO_ROW_HTML).expect("feed should build");
    assert_eq!(text, expected_two_row_feed());
    let nord = text.find("SUMMARY:Steinbock schraubt: Nord").unwrap();
    let sued = text.find("SUMMARY:Steinbock schraubt: S\u{fc}d").unwrap();
    assert!(nord < sued);
}

#[test]
fn feed_is_deterministic_across_calls() {
    let text1 = build_feed(TWO_ROW_HTML).unwrap();
    let text2 = build_feed(TWO_ROW_HTML).unwrap();
    assert_eq!(text1, text2);
}

#[test]
fn missing_second_cell_aborts_whole_request() {
    let html = "<table>\
        <tr><td>Datum</td><td>Sektion</td></tr>\
        <tr><td>05.03.2024</td><td>Nord</td></tr>\
        <tr><td>12.03.2024</td></tr>\
        </table>";
    let r = build_feed(html);
    assert_eq!(
        r,
        Err(FeedError::Row { missing: MissingField::Section, row_index: 2 })
    );
}

#[test]
fn missing_first_cell_aborts_whole_request() {
    let rows = vec![
        vec!["Datum".to_string(), "Sektion".to_string()],
        vec![],
    ];
    let r = feed_from_rows(&rows);
    assert_eq!(
        r,
        Err(FeedError::Row { missing: MissingField::Date, row_index: 1 })
    );
}

#[test]
fn first_bad_row_wins() {
    let rows = vec![
        vec!["Datum".to_string(), "Sektion".to_string()],
        vec!["05.03.2024".to_string(), "Nord".to_string()],
        vec!["12.03.2024".to_string()],
        vec![],
    ];
    let r = feed_from_rows(&rows);
    assert_eq!(
        r,
        Err(FeedError::Row { missing: MissingField::Section, row_index: 2 })
    );
}

#[test]
fn document_without_table_yields_parse_error() {
    let r = build_feed("<html><body><p>No data here.</p></body></html>");
    assert_eq!(r, Err(FeedError::Parse));
}

#[test]
fn header_only_table_yields_empty_feed() {
    let html = "<table><tr><td>Datum</td><td>Sektion</td></tr></table>";
    let text = build_feed(html).unwrap();
    assert!(!text.contains("BEGIN:VEVENT"));
    assert!(text.starts_with("BEGIN:VCALENDAR\r\n"));
    assert!(text.contains("BEGIN:VTIMEZONE\r\n"));
    assert!(text.ends_with("END:VCALENDAR\r\n"));
}

#[test]
fn error_messages_name_the_failure() {
    assert_eq!(FeedError::Parse.message(), "Failed to find table in html");
    assert_eq!(
        FeedError::Row { missing: MissingField::Date, row_index: 1 }.message(),
        "Date not in table"
    );
    assert_eq!(
        FeedError::Row { missing: MissingField::Section, row_index: 1 }.message(),
        "Section not in table"
    );
    assert_eq!(FeedError::Network.message(), "Failed to fetch remote document");
}
