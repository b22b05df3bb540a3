//! Typed failures of the scrape-to-calendar pipeline. Every stage returns
//! failures upward unchanged; the caller of the entry point converts them
//! into a user-visible message.

use vstd::prelude::*;

verus! {

/// The cell a data row lacked.
#[derive(Clone, Copy, Debug, PartialEq, Eq, Structural)]
pub enum MissingField {
    Date,
    Section,
}

/// A failure of the pipeline.
#[derive(Clone, Copy, Debug, PartialEq, Eq, Structural)]
pub enum FeedError {
    /// The remote fetch failed; produced only by the caller that performs
    /// the fetch, never by the core itself.
    Network,
    /// No table element was found in the fetched document.
    Parse,
    /// A data row lacked a required cell. `row_index` is the position of the
    /// row within the extracted row sequence (the header row is index 0).
    Row { missing: MissingField, row_index: usize },
}

impl FeedError {
    /// A human-readable description of the failure.
    pub fn message(&self) -> (r: String)
        ensures
            *self is Network ==> r@ == "Failed to fetch remote document"@,
            *self is Parse ==> r@ == "Failed to find table in html"@,
            (self matches FeedError::Row { missing: MissingField::Date, .. }) ==> r@
                == "Date not in table"@,
            (self matches FeedError::Row { missing: MissingField::Section, .. }) ==> r@
                == "Section not in table"@,
    {
        match self {
            FeedError::Network => String::from_str("Failed to fetch remote document"),
            FeedError::Parse => String::from_str("Failed to find table in html"),
            FeedError::Row { missing: MissingField::Date, .. } => String::from_str(
                "Date not in table",
            ),
            FeedError::Row { missing: MissingField::Section, .. } => String::from_str(
                "Section not in table",
            ),
        }
    }
}

} // verus!
