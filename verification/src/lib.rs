//! Reconciliation and scheduling engine of a booking agent for fitness classes.
//!
//! The engine matches a member's standing weekly time windows against the course
//! occurrences that the studio currently advertises, and turns every match into a
//! booking that fires at the earliest instant the studio permits it.
//!
//! - [`app_state`] holds the members and what they want.
//! - [`fetch`] holds what goes to the studio's booking service and what comes
//!   back, with the reading of the studio's timestamps.
//! - [`matcher`] decides which occurrence of a course answers a window.
//! - [`tasks`] holds the reconciliation pass and the deferred booking as step
//!   functions, and [`background_worker`] the worker that runs them over its
//!   configuration.
//! - [`utils`] converts between the studio's timestamps and the monotonic clock.
//! - [`datetime`] holds the calendar values all of this works on, and [`search`]
//!   what it means to be the first of something.
//!
//! The engine makes no request and does not sleep. It is told what time it is
//! and what the last request brought, and says what to request next and which
//! bookings to make when. Every function here is proved to do what its contract
//! says and never to panic, with these exceptions, which are believed: what
//! `chrono` says of an instant: its day of the week, its time of day, its
//! calendar date as text, the instant that a text stands for, the present
//! instant. Of these only the reading of the clock can fail: `chrono` panics
//! where the system clock stands before 1970.

pub mod app_state;
pub mod background_worker;
pub mod datetime;
pub mod fetch;
pub mod matcher;
pub mod search;
pub mod tasks;
pub mod utils;
