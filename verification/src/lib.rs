//! Scrape-to-calendar core: extracts the first table of an HTML document,
//! normalizes its date column, derives event identifiers and records, and
//! serializes the resulting calendar document to the iCalendar text format.

pub mod calendar;
pub mod dates;
pub mod errors;
pub mod event;
pub mod feed;
pub mod ident;
pub mod table;
