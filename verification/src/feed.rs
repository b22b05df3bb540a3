//! The single entry point of the pipeline: from a fetched HTML document to
//! the serialized calendar feed. The first table is extracted, its header
//! row (index 0) skipped, every remaining row turned into an event, and the
//! assembled document serialized. The first bad row fails the whole request;
//! no partial document is ever returned.

use vstd::prelude::*;
use crate::calendar::{
    calendar_text, events_text, event_text, property_text, serialize_calendar, timezone_text,
    CalendarDocument, TimezoneDefinition, TimezoneRule,
};
use crate::dates::normalize_date_spec;
use crate::errors::{FeedError, MissingField};
use crate::event::{
    build_event, event_matches_row, event_summary_spec, event_timestamp_spec, event_uid_spec,
    EventRecord,
};
use crate::table::{find_first_table, first_table_rows, rows_view};

verus! {

/// The `VEVENT` block that a data row with raw date token `date_raw` and
/// section label `label` contributes to the feed.
pub open spec fn row_event_text(date_raw: Seq<char>, label: Seq<char>) -> Seq<char> {
    "BEGIN:VEVENT\r\n"@ + property_text("UID"@, event_uid_spec(date_raw, label)) + property_text(
        "DTSTAMP"@,
        event_timestamp_spec(date_raw),
    ) + property_text("SUMMARY"@, event_summary_spec(label)) + property_text(
        "DTSTART;VALUE=DATE"@,
        normalize_date_spec(date_raw),
    ) + property_text("DTEND;VALUE=DATE"@, normalize_date_spec(date_raw)) + "END:VEVENT\r\n"@
}

/// The event blocks of the data rows `rows[1..n]`, in row order.
pub open spec fn feed_events_text(rows: Seq<Seq<Seq<char>>>, n: int) -> Seq<char>
    decreases n,
{
    if n <= 1 {
        Seq::empty()
    } else {
        feed_events_text(rows, n - 1) + row_event_text(rows[n - 1][0], rows[n - 1][1])
    }
}

/// The full feed text for an extracted row sequence: the fixed header, the
/// fixed Vienna timezone definition, and one event block per data row.
pub open spec fn feed_text(rows: Seq<Seq<Seq<char>>>) -> Seq<char> {
    "BEGIN:VCALENDAR\r\n"@ + property_text("VERSION"@, "2.0"@) + property_text(
        "PRODID"@,
        "steinbock-kalender"@,
    ) + ("BEGIN:VTIMEZONE\r\n"@ + property_text("TZID"@, "Europe/Vienna"@) + "BEGIN:STANDARD\r\n"@
        + property_text("DTSTART"@, "19961027T030000"@) + property_text("TZOFFSETFROM"@, "+0100"@)
        + property_text("TZOFFSETTO"@, "+0200"@) + "END:STANDARD\r\n"@ + "END:VTIMEZONE\r\n"@)
        + feed_events_text(rows, rows.len() as int) + "END:VCALENDAR\r\n"@
}

/// The position of the first data row (index 1 on) with fewer than two
/// cells, scanning from `i`; `rows.len()` when every such row is complete.
pub open spec fn first_bad_from(rows: Seq<Seq<Seq<char>>>, i: int) -> int
    decreases rows.len() - i,
{
    if i < 0 || i >= rows.len() {
        rows.len() as int
    } else if rows[i].len() < 2 {
        i
    } else {
        first_bad_from(rows, i + 1)
    }
}

/// What the pipeline owes for an extracted row sequence: the feed text when
/// every data row holds at least two cells, else the row error naming the
/// first missing cell and the position of its row.
pub open spec fn feed_outcome(rows: Seq<Seq<Seq<char>>>) -> Result<Seq<char>, FeedError> {
    let b = first_bad_from(rows, 1);
    if b == rows.len() {
        Ok(feed_text(rows))
    } else if rows[b].len() == 0 {
        Err(FeedError::Row { missing: MissingField::Date, row_index: b as usize })
    } else {
        Err(FeedError::Row { missing: MissingField::Section, row_index: b as usize })
    }
}

/// Whether the returned result carries exactly the owed outcome.
pub open spec fn feed_result_matches(
    r: Result<String, FeedError>,
    o: Result<Seq<char>, FeedError>,
) -> bool {
    match (r, o) {
        (Ok(s), Ok(t)) => s@ == t,
        (Err(e1), Err(e2)) => e1 == e2,
        _ => false,
    }
}

proof fn lemma_first_bad_from(rows: Seq<Seq<Seq<char>>>, k: int, i: int)
    requires
        0 <= k <= i <= rows.len(),
        forall|j: int| k <= j < i ==> #[trigger] rows[j].len() >= 2,
        i < rows.len() ==> rows[i].len() < 2,
    ensures
        first_bad_from(rows, k) == if i == rows.len() {
            rows.len() as int
        } else {
            i
        },
    decreases i - k,
{
    if k < i {
        assert(rows[k].len() >= 2);
        lemma_first_bad_from(rows, k + 1, i);
    }
}

/// Turns an extracted row sequence into the serialized feed. Row index 0 is
/// the header and is skipped; each remaining row becomes one event; the
/// first row with fewer than two cells aborts the whole request.
pub fn feed_from_rows(rows: &Vec<Vec<String>>) -> (r: Result<String, FeedError>)
    ensures
        feed_result_matches(r, feed_outcome(rows_view(*rows))),
{
    let ghost rv = rows_view(*rows);
    let n = rows.len();
    let mut events: Vec<EventRecord> = Vec::new();
    let mut i: usize = 1;
    while i < n
        invariant
            rv == rows_view(*rows),
            n == rows@.len(),
            1 <= i,
            i <= n || i == 1,
            forall|j: int| 1 <= j < i ==> #[trigger] rv[j].len() >= 2,
            events_text(events@) == feed_events_text(rv, i as int),
        decreases n - i,
    {
        let row = &rows[i];
        match build_event(row, i) {
            Err(e) => {
                proof {
                    lemma_first_bad_from(rv, 1, i as int);
                }
                return Err(e);
            },
            Ok(ev) => {
                let ghost old_events = events@;
                events.push(ev);
                proof {
                    assert(events@.drop_last() =~= old_events);
                    assert(events@.last() == ev);
                    assert(event_matches_row(ev, rv[i as int][0], rv[i as int][1]));
                    assert(event_text(ev) =~= row_event_text(rv[i as int][0], rv[i as int][1]));
                    assert(feed_events_text(rv, i + 1) == feed_events_text(rv, i as int)
                        + row_event_text(rv[i as int][0], rv[i as int][1]));
                }
            },
        }
        i += 1;
    }
    proof {
        if n >= 1 {
            lemma_first_bad_from(rv, 1, n as int);
        }
        assert(first_bad_from(rv, 1) == rv.len());
        assert(events_text(events@) == feed_events_text(rv, rv.len() as int));
    }
    let tz = TimezoneDefinition {
        name: String::from_str("Europe/Vienna"),
        rule: TimezoneRule {
            start: String::from_str("19961027T030000"),
            offset_from: String::from_str("+0100"),
            offset_to: String::from_str("+0200"),
        },
    };
    let doc = CalendarDocument {
        version: String::from_str("2.0"),
        product_id: String::from_str("steinbock-kalender"),
        timezone: tz,
        events,
    };
    let text = serialize_calendar(&doc);
    proof {
        assert(timezone_text(doc.timezone) =~= "BEGIN:VTIMEZONE\r\n"@ + property_text(
            "TZID"@,
            "Europe/Vienna"@,
        ) + "BEGIN:STANDARD\r\n"@ + property_text("DTSTART"@, "19961027T030000"@) + property_text(
            "TZOFFSETFROM"@,
            "+0100"@,
        ) + property_text("TZOFFSETTO"@, "+0200"@) + "END:STANDARD\r\n"@ + "END:VTIMEZONE\r\n"@);
        assert(calendar_text(doc) =~= feed_text(rv));
    }
    Ok(text)
}

/// The single entry point short of the network fetch: from the fetched HTML
/// document text to the serialized feed. Yields the parse failure when the
/// document holds no table, the first row failure when a data row lacks a
/// cell, and the feed text otherwise.
pub fn build_feed(html: &str) -> (r: Result<String, FeedError>)
    ensures
        first_table_rows(html@) is None ==> r == Err::<String, FeedError>(FeedError::Parse),
        (first_table_rows(html@) matches Some(rv) ==> feed_result_matches(r, feed_outcome(rv))),
{
    match find_first_table(html) {
        None => Err(FeedError::Parse),
        Some(rows) => feed_from_rows(&rows),
    }
}

} // verus!
