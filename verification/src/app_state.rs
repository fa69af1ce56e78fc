//! The standing preferences of the members the agent books for.
//!
//! The preferences are read once when the agent starts and never change while it
//! runs.

use crate::datetime::NaiveTime;
use crate::datetime::Weekday;
use vstd::prelude::*;

verus! {

/// Everything the agent was configured with.
#[derive(Clone, Debug)]
pub struct AppState {
    pub users: Vec<User>,
}

/// A member, the credential the studio knows them by, and the courses they want,
/// in order of preference.
#[derive(Clone, Debug)]
pub struct User {
    pub username: String,
    pub password: String,
    pub courses: Vec<CourseToBook>,
}

/// A course the member wants, by the exact name under which the studio lists it,
/// with the weekly windows in which an occurrence is welcome.
#[derive(Clone, Debug)]
pub struct CourseToBook {
    pub name: String,
    pub time_slots: Vec<TimeSlotToBook>,
}

/// A weekly window: a day of the week and a span of local wall-clock time on it.
#[derive(Clone, Copy, Debug)]
pub struct TimeSlotToBook {
    pub day: Weekday,
    pub start_time: NaiveTime,
    pub end_time: NaiveTime,
}

impl TimeSlotToBook {
    /// A window lies within one day: it does not end before it starts.
    pub open spec fn wf(&self) -> bool {
        self.start_time.spec_le(&self.end_time)
    }

    /// An occurrence that starts on `day` at `start` and ends at `end` lies within
    /// the window: it falls on the window's day, starts no earlier and ends no later
    /// than the window.
    pub open spec fn spec_contains(&self, day: Weekday, start: NaiveTime, end: NaiveTime) -> bool {
        &&& day == self.day
        &&& self.start_time.spec_le(&start)
        &&& end.spec_le(&self.end_time)
    }

    /// Whether the window does not end before it starts.
    pub fn is_valid(&self) -> (valid: bool)
        ensures
            valid == self.wf(),
    {
        self.start_time.le(&self.end_time)
    }

    /// Whether an occurrence that starts on `day` at `start` and ends at `end` lies
    /// within the window. The window must contain the occurrence; to overlap it is
    /// not enough.
    pub fn contains(&self, day: Weekday, start: &NaiveTime, end: &NaiveTime) -> (inside: bool)
        ensures
            inside == self.spec_contains(day, *start, *end),
    {
        day == self.day && self.start_time.le(start) && end.le(&self.end_time)
    }
}

} // verus!
