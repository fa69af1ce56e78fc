//! Reading of the timestamps in the studio's catalog.
//!
//! The studio writes an instant as an RFC 3339 date and time followed by the name
//! of a region in square brackets, as in
//! `2024-01-01T18:00:00+01:00[Europe/Berlin]`. The date and time carry their own
//! offset from UTC; the region adds nothing to them and is not read.

use crate::datetime::DateTime;
use crate::datetime::DateTimeView;
use crate::search::first;
use crate::search::lemma_first_absent;
use crate::search::lemma_first_found;
use vstd::prelude::*;

verus! {

/// Why a timestamp of the catalog could not be read.
#[derive(Clone, Debug, PartialEq, Eq)]
pub enum TimestampError {
    /// The text has no opening square bracket, so no region.
    MissingRegion,
    /// What stands before the region is not an RFC 3339 date and time that can be
    /// represented; with the reason, in the words of `chrono`.
    InvalidDatetime(String),
}

/// The mathematical content of a [`TimestampError`].
pub enum TimestampErrorView {
    MissingRegion,
    InvalidDatetime(Seq<char>),
}

impl TimestampErrorView {
    /// The error in words: for a date and time that is not accepted, the reason
    /// after a fixed beginning.
    pub open spec fn message(self) -> Seq<char> {
        match self {
            TimestampErrorView::MissingRegion => "Expected region in format [Region/Zone]"@,
            TimestampErrorView::InvalidDatetime(reason) => "Invalid datetime: "@ + reason,
        }
    }
}

impl View for TimestampError {
    type V = TimestampErrorView;

    open spec fn view(&self) -> TimestampErrorView {
        match self {
            TimestampError::MissingRegion => TimestampErrorView::MissingRegion,
            TimestampError::InvalidDatetime(reason) => TimestampErrorView::InvalidDatetime(reason@),
        }
    }
}

impl TimestampError {
    /// The error in words.
    pub fn message(&self) -> (text: String)
        ensures
            text@ == self@.message(),
    {
        match self {
            TimestampError::MissingRegion => String::from_str(
                "Expected region in format [Region/Zone]",
            ),
            TimestampError::InvalidDatetime(reason) => {
                let mut text = String::from_str("Invalid datetime: ");
                text.append(reason.as_str());
                text
            },
        }
    }
}

/// The place of the first opening square bracket in `text`, where the region
/// begins.
pub open spec fn region_start(text: Seq<char>) -> Option<int> {
    first(|index: int| text[index] == '[', text.len() as int)
}

/// The instant that a timestamp of the catalog stands for: what `chrono` reads
/// from the text before the region.
pub open spec fn timestamp_of(text: Seq<char>) -> Result<DateTimeView, TimestampErrorView> {
    match region_start(text) {
        Some(index) => match DateTime::spec_parse_from_rfc3339(text.subrange(0, index)) {
            Ok(instant) => Ok(instant),
            Err(reason) => Err(TimestampErrorView::InvalidDatetime(reason)),
        },
        None => Err(TimestampErrorView::MissingRegion),
    }
}

/// The place of the first opening square bracket in `text`, counted in
/// characters.
pub fn find_region(text: &str) -> (found: Option<usize>)
    ensures
        found matches Some(index) ==> region_start(text@) == Some(index as int),
        found is None ==> region_start(text@) is None,
{
    let ghost holds = |at: int| text@[at] == '[';
    let length = text.unicode_len();
    let mut index: usize = 0;
    for c in it: text.chars()
        invariant
            length == text@.len(),
            it.seq() == text@,
            index == it.index(),
            holds == |at: int| text@[at] == '[',
            forall|earlier: int| 0 <= earlier < index ==> !#[trigger] holds(earlier),
    {
        if c == '[' {
            proof {
                lemma_first_found(holds, text@.len() as int, index as int);
            }
            return Some(index);
        }
        index += 1;
    }
    proof {
        lemma_first_absent(holds, text@.len() as int);
    }
    None
}

/// Reads a timestamp of the catalog, which may be absent.
///
/// An absent timestamp is no error. A timestamp that is there must name a region
/// and must begin with a date and time that `chrono` accepts as RFC 3339; where
/// it does not accept it, the error says why in the words of `chrono`.
pub fn deserialize(value: Option<String>) -> (read: Result<Option<DateTime>, TimestampError>)
    ensures
        match value {
            None => read matches Ok(None),
            Some(text) => match timestamp_of(text@) {
                Ok(instant) => read matches Ok(Some(dt)) && dt@ == instant,
                Err(error) => read matches Err(told) && told@ == error,
            },
        },
{
    let text = match &value {
        Some(text) => text.as_str(),
        None => {
            return Ok(None);
        },
    };
    let region = match find_region(text) {
        Some(region) => region,
        None => {
            return Err(TimestampError::MissingRegion);
        },
    };
    match DateTime::parse_from_rfc3339(text.substring_char(0, region)) {
        Ok(dt) => Ok(Some(dt)),
        Err(reason) => Err(TimestampError::InvalidDatetime(reason)),
    }
}

} // verus!
