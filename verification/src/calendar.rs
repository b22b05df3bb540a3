//! The calendar document and its serializer. A document is rendered to the
//! iCalendar text format: a `VCALENDAR` header carrying version and product
//! identifier, exactly one `VTIMEZONE` block with one standard-time rule,
//! then one `VEVENT` block per event in document order. Every property is
//! emitted as a single `KEY:VALUE` content line ended by CRLF; serialization
//! is deterministic and performs no validation of the input document.

use vstd::prelude::*;
use crate::event::EventRecord;

verus! {

/// One standard-time transition rule of a timezone definition.
#[derive(Clone, Debug)]
pub struct TimezoneRule {
    /// Onset of the rule, a local date-time token.
    pub start: String,
    /// UTC offset in effect before the transition.
    pub offset_from: String,
    /// UTC offset in effect after the transition.
    pub offset_to: String,
}

/// A named timezone with a single standard-time rule.
#[derive(Clone, Debug)]
pub struct TimezoneDefinition {
    pub name: String,
    pub rule: TimezoneRule,
}

/// A versioned collection of one timezone definition and an ordered event
/// list.
#[derive(Clone, Debug)]
pub struct CalendarDocument {
    pub version: String,
    pub product_id: String,
    pub timezone: TimezoneDefinition,
    pub events: Vec<EventRecord>,
}

/// One content line: `KEY:VALUE` ended by CRLF.
pub open spec fn property_text(key: Seq<char>, value: Seq<char>) -> Seq<char> {
    key + ":"@ + value + "\r\n"@
}

/// The `VTIMEZONE` block of a timezone definition.
pub open spec fn timezone_text(tz: TimezoneDefinition) -> Seq<char> {
    "BEGIN:VTIMEZONE\r\n"@ + property_text("TZID"@, tz.name@) + "BEGIN:STANDARD\r\n"@
        + property_text("DTSTART"@, tz.rule.start@) + property_text(
        "TZOFFSETFROM"@,
        tz.rule.offset_from@,
    ) + property_text("TZOFFSETTO"@, tz.rule.offset_to@) + "END:STANDARD\r\n"@
        + "END:VTIMEZONE\r\n"@
}

/// The `VEVENT` block of one event record.
pub open spec fn event_text(e: EventRecord) -> Seq<char> {
    "BEGIN:VEVENT\r\n"@ + property_text("UID"@, e.uid@) + property_text("DTSTAMP"@, e.timestamp@)
        + property_text("SUMMARY"@, e.summary@) + property_text("DTSTART;VALUE=DATE"@, e.start@)
        + property_text("DTEND;VALUE=DATE"@, e.end@) + "END:VEVENT\r\n"@
}

/// The event blocks of `es`, in order.
pub open spec fn events_text(es: Seq<EventRecord>) -> Seq<char>
    decreases es.len(),
{
    if es.len() == 0 {
        Seq::empty()
    } else {
        events_text(es.drop_last()) + event_text(es.last())
    }
}

/// The full serialized document.
pub open spec fn calendar_text(doc: CalendarDocument) -> Seq<char> {
    "BEGIN:VCALENDAR\r\n"@ + property_text("VERSION"@, doc.version@) + property_text(
        "PRODID"@,
        doc.product_id@,
    ) + timezone_text(doc.timezone) + events_text(doc.events@) + "END:VCALENDAR\r\n"@
}

fn append_property(out: &mut String, key: &str, value: &str)
    ensures
        final(out)@ == old(out)@ + property_text(key@, value@),
{
    out.append(key);
    out.append(":");
    out.append(value);
    out.append("\r\n");
    proof {
        assert(out@ =~= old(out)@ + property_text(key@, value@));
    }
}

fn append_timezone(out: &mut String, tz: &TimezoneDefinition)
    ensures
        final(out)@ == old(out)@ + timezone_text(*tz),
{
    out.append("BEGIN:VTIMEZONE\r\n");
    append_property(out, "TZID", tz.name.as_str());
    out.append("BEGIN:STANDARD\r\n");
    append_property(out, "DTSTART", tz.rule.start.as_str());
    append_property(out, "TZOFFSETFROM", tz.rule.offset_from.as_str());
    append_property(out, "TZOFFSETTO", tz.rule.offset_to.as_str());
    out.append("END:STANDARD\r\n");
    out.append("END:VTIMEZONE\r\n");
    proof {
        assert(out@ =~= old(out)@ + timezone_text(*tz));
    }
}

fn append_event(out: &mut String, e: &EventRecord)
    ensures
        final(out)@ == old(out)@ + event_text(*e),
{
    out.append("BEGIN:VEVENT\r\n");
    append_property(out, "UID", e.uid.as_str());
    append_property(out, "DTSTAMP", e.timestamp.as_str());
    append_property(out, "SUMMARY", e.summary.as_str());
    append_property(out, "DTSTART;VALUE=DATE", e.start.as_str());
    append_property(out, "DTEND;VALUE=DATE", e.end.as_str());
    out.append("END:VEVENT\r\n");
    proof {
        assert(out@ =~= old(out)@ + event_text(*e));
    }
}

/// Renders the document to its serialized text. The output is a pure
/// function of the document's field contents, so identical documents always
/// serialize to byte-identical text.
pub fn serialize_calendar(doc: &CalendarDocument) -> (r: String)
    ensures
        r@ == calendar_text(*doc),
{
    let mut out = String::new();
    out.append("BEGIN:VCALENDAR\r\n");
    append_property(&mut out, "VERSION", doc.version.as_str());
    append_property(&mut out, "PRODID", doc.product_id.as_str());
    append_timezone(&mut out, &doc.timezone);
    let ghost prefix = out@;
    let n = doc.events.len();
    let mut i: usize = 0;
    while i < n
        invariant
            n == doc.events@.len(),
            0 <= i <= n,
            out@ == prefix + events_text(doc.events@.take(i as int)),
        decreases n - i,
    {
        append_event(&mut out, &doc.events[i]);
        proof {
            let es = doc.events@;
            assert(es.take(i + 1).drop_last() =~= es.take(i as int));
            assert(es.take(i + 1).last() == es[i as int]);
            assert(events_text(es.take(i + 1)) == events_text(es.take(i as int)) + event_text(
                es[i as int],
            ));
            assert(out@ =~= prefix + events_text(es.take(i + 1)));
        }
        i += 1;
    }
    proof {
        assert(doc.events@.take(n as int) =~= doc.events@);
    }
    out.append("END:VCALENDAR\r\n");
    proof {
        assert(out@ =~= calendar_text(*doc));
    }
    out
}

/// Whether two event records hold the same contents.
pub open spec fn event_like(e1: EventRecord, e2: EventRecord) -> bool {
    &&& e1.uid@ == e2.uid@
    &&& e1.timestamp@ == e2.timestamp@
    &&& e1.summary@ == e2.summary@
    &&& e1.start@ == e2.start@
    &&& e1.end@ == e2.end@
}

/// Whether two documents hold the same contents.
pub open spec fn document_like(d1: CalendarDocument, d2: CalendarDocument) -> bool {
    &&& d1.version@ == d2.version@
    &&& d1.product_id@ == d2.product_id@
    &&& d1.timezone.name@ == d2.timezone.name@
    &&& d1.timezone.rule.start@ == d2.timezone.rule.start@
    &&& d1.timezone.rule.offset_from@ == d2.timezone.rule.offset_from@
    &&& d1.timezone.rule.offset_to@ == d2.timezone.rule.offset_to@
    &&& d1.events@.len() == d2.events@.len()
    &&& forall|i: int|
        0 <= i < d1.events@.len() ==> event_like(#[trigger] d1.events@[i], d2.events@[i])
}

proof fn lemma_events_text_like(es1: Seq<EventRecord>, es2: Seq<EventRecord>)
    requires
        es1.len() == es2.len(),
        forall|i: int| 0 <= i < es1.len() ==> event_like(#[trigger] es1[i], es2[i]),
    ensures
        events_text(es1) == events_text(es2),
    decreases es1.len(),
{
    if es1.len() > 0 {
        assert forall|i: int| 0 <= i < es1.drop_last().len() implies event_like(
            #[trigger] es1.drop_last()[i],
            es2.drop_last()[i],
        ) by {
            assert(es1.drop_last()[i] == es1[i]);
            assert(es2.drop_last()[i] == es2[i]);
        }
        lemma_events_text_like(es1.drop_last(), es2.drop_last());
        assert(event_like(es1.last(), es2.last()));
    }
}

/// Serialization is deterministic: two documents with the same contents
/// serialize to the same text.
pub proof fn lemma_serialize_deterministic(d1: CalendarDocument, d2: CalendarDocument)
    requires
        document_like(d1, d2),
    ensures
        calendar_text(d1) == calendar_text(d2),
{
    lemma_events_text_like(d1.events@, d2.events@);
}

/// A document with zero events still serializes to a well-formed document:
/// the header lines, the timezone block, and the closing line, nothing else.
pub proof fn lemma_serialize_empty(doc: CalendarDocument)
    requires
        doc.events@.len() == 0,
    ensures
        calendar_text(doc) == "BEGIN:VCALENDAR\r\n"@ + property_text("VERSION"@, doc.version@)
            + property_text("PRODID"@, doc.product_id@) + timezone_text(doc.timezone)
            + "END:VCALENDAR\r\n"@,
{
    assert(events_text(doc.events@) == Seq::<char>::empty());
    assert(calendar_text(doc) =~= "BEGIN:VCALENDAR\r\n"@ + property_text("VERSION"@, doc.version@)
        + property_text("PRODID"@, doc.product_id@) + timezone_text(doc.timezone)
        + "END:VCALENDAR\r\n"@);
}

} // verus!
