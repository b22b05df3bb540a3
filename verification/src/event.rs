//! Event construction: one extracted table row becomes one calendar event
//! record. The first cell is the raw date token, the second the section
//! label; the time-of-day suffix and the summary template are fixed policy.

use vstd::prelude::*;
use crate::dates::{create_timestamp, normalize_date_spec};
use crate::errors::{FeedError, MissingField};
use crate::ident::{create_uid, strip_spaces_spec};

verus! {

/// One calendar event. The event spans a single calendar day: `start` and
/// `end` hold the same normalized date token.
#[derive(Clone, Debug)]
pub struct EventRecord {
    /// Identifier, unique within a document up to equal date and label.
    pub uid: String,
    /// Machine timestamp: the normalized date with a fixed time-of-day suffix.
    pub timestamp: String,
    /// Human-readable summary embedding the section label.
    pub summary: String,
    /// Normalized start date.
    pub start: String,
    /// Normalized end date; equals `start`.
    pub end: String,
}

/// The machine timestamp derived from the raw date token: its normalized
/// form with the fixed synthetic time of day appended.
pub open spec fn event_timestamp_spec(date_raw: Seq<char>) -> Seq<char> {
    normalize_date_spec(date_raw) + "T124650Z"@
}

/// The event identifier derived from a raw date token and a section label.
pub open spec fn event_uid_spec(date_raw: Seq<char>, label: Seq<char>) -> Seq<char> {
    strip_spaces_spec(event_timestamp_spec(date_raw) + label)
}

/// The event summary: the fixed template embedding the section label.
pub open spec fn event_summary_spec(label: Seq<char>) -> Seq<char> {
    "Steinbock schraubt: "@ + label
}

/// Whether `e` is exactly the event that a row with raw date token
/// `date_raw` and section label `label` yields.
pub open spec fn event_matches_row(e: EventRecord, date_raw: Seq<char>, label: Seq<char>) -> bool {
    &&& e.uid@ == event_uid_spec(date_raw, label)
    &&& e.timestamp@ == event_timestamp_spec(date_raw)
    &&& e.summary@ == event_summary_spec(label)
    &&& e.start@ == normalize_date_spec(date_raw)
    &&& e.end@ == normalize_date_spec(date_raw)
}

/// Builds the event record for one data row. `row_index` is the position of
/// the row within the extracted row sequence and is carried into the error
/// when a required cell is absent.
pub fn build_event(cells: &Vec<String>, row_index: usize) -> (r: Result<EventRecord, FeedError>)
    ensures
        cells@.len() == 0 ==> r == Err::<EventRecord, FeedError>(
            (FeedError::Row { missing: MissingField::Date, row_index }),
        ),
        cells@.len() == 1 ==> r == Err::<EventRecord, FeedError>(
            (FeedError::Row { missing: MissingField::Section, row_index }),
        ),
        cells@.len() >= 2 ==> (r matches Ok(e) && event_matches_row(e, cells@[0]@, cells@[1]@)),
{
    if cells.len() == 0 {
        return Err(FeedError::Row { missing: MissingField::Date, row_index });
    }
    if cells.len() == 1 {
        return Err(FeedError::Row { missing: MissingField::Section, row_index });
    }
    let date_raw = cells[0].clone();
    let label = cells[1].clone();

    let date_norm = create_timestamp(date_raw);
    let timestamp = date_norm.clone().concat("T124650Z");
    let uid = create_uid(label.clone(), timestamp.clone());
    let summary = String::from_str("Steinbock schraubt: ").concat(label.as_str());
    let start = date_norm.clone();
    let end = date_norm;

    let e = EventRecord { uid, timestamp, summary, start, end };
    proof {
        assert((event_timestamp_spec(cells@[0]@) + cells@[1]@) =~= normalize_date_spec(cells@[0]@)
            + "T124650Z"@ + cells@[1]@);
    }
    Ok(e)
}

} // verus!
