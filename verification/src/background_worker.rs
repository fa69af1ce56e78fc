//! The worker that owns the configuration and runs the engine over it.

use crate::app_state::AppState;
use crate::datetime::DateTime;
use crate::tasks::booking_step;
use crate::tasks::pass_bookings;
use crate::tasks::pass_transition;
use crate::tasks::BookingAction;
use crate::tasks::BookingEvent;
use crate::tasks::BookingPhase;
use crate::tasks::PassEvent;
use crate::tasks::PassPhase;
use crate::tasks::PassState;
use crate::tasks::PassStep;
use vstd::prelude::*;

verus! {

/// The engine with the configuration it works on. The configuration is only ever
/// read, so a worker can be shared by a pass and by any number of bookings that
/// wait for their time.
#[derive(Debug)]
pub struct BackgroundWorker {
    pub app_state: AppState,
}

impl BackgroundWorker {
    /// How many seconds to sleep before doing what is due at `start_time`, when
    /// the clock reads `now`; both in seconds since the Unix epoch. What is already
    /// due is done at once: the wait is zero, never negative.
    pub fn run_at_specific_time(&self, start_time: u64, now: u64) -> (wait: u64)
        ensures
            wait == if start_time > now {
                start_time - now
            } else {
                0
            },
    {
        if start_time > now {
            start_time - now
        } else {
            0
        }
    }

    /// One step of the booking of course `course_id` for the member `user_id`; see
    /// [`crate::tasks::book_courses`].
    pub fn book_courses(
        &self,
        user_id: &String,
        course_id: i64,
        phase: BookingPhase,
        event: BookingEvent,
    ) -> (step: (BookingPhase, BookingAction))
        ensures
            booking_step(&self.app_state, user_id@, course_id, phase, event, step.0, step.1),
    {
        crate::tasks::book_courses(&self.app_state, user_id, course_id, phase, event)
    }

    /// One step of the reconciliation pass over the worker's members; see
    /// [`crate::tasks::schedule_book_courses`].
    pub fn schedule_book_courses(&self, state: PassState, event: PassEvent, now: &DateTime) -> (step:
        PassStep)
        ensures
            (step.state, step.action) == pass_transition(&self.app_state, state, event, now),
            step.bookings@ == pass_bookings(&self.app_state, state, event, now),
            step.state.wf(&self.app_state),
            state.wf(&self.app_state) && state.phase != PassPhase::Finished
                ==> step.state.steps_left(&self.app_state) < state.steps_left(&self.app_state),
    {
        crate::tasks::schedule_book_courses(&self.app_state, state, event, now)
    }
}

} // verus!
