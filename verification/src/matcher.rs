//! The slot matcher: which occurrence of a course, if any, answers a weekly window.
//!
//! The occurrences are scanned in the studio's order and the first one that lies
//! within the window is taken; there is no scoring. Whether the occurrence can be
//! booked is asked only of that first one: if it cannot, the window finds nothing,
//! even if a later occurrence would do.

use crate::app_state::TimeSlotToBook;
use crate::fetch::JohnReedCourse;
use crate::fetch::JohnReedSlot;
use crate::search::first;
use crate::search::lemma_first;
use crate::search::lemma_first_absent;
use crate::search::lemma_first_found;
use vstd::prelude::*;

verus! {

/// The occurrence has a start and an end, starts on the window's day of the week
/// and lies within the window's span, all in the local time of the occurrence.
pub open spec fn slot_fits(window: &TimeSlotToBook, slot: &JohnReedSlot) -> bool {
    match (slot.start_date_time, slot.end_date_time) {
        (Some(start), Some(end)) => window.spec_contains(
            start@.weekday(),
            start@.time(),
            end@.time(),
        ),
        _ => false,
    }
}

/// The place of the first occurrence in `slots` that fits the window, if any does.
pub open spec fn first_fit(window: &TimeSlotToBook, slots: Seq<JohnReedSlot>) -> Option<int> {
    first(|index: int| slot_fits(window, &slots[index]), slots.len() as int)
}

/// The place of the occurrence that matches the window: the first that fits it,
/// in a course that has not been canceled.
pub open spec fn matched_slot(window: &TimeSlotToBook, course: &JohnReedCourse) -> Option<int> {
    if course.spec_is_bookable() {
        first_fit(window, course.slots@)
    } else {
        None
    }
}

/// The place of the occurrence to book for the window when the clock reads `now`
/// seconds since the Unix epoch: the one that matches, if it can be booked then.
pub open spec fn selected_slot(window: &TimeSlotToBook, course: &JohnReedCourse, now: i64) -> Option<
    int,
> {
    match matched_slot(window, course) {
        Some(index) => if course.slots@[index].spec_is_bookable_at(now) {
            Some(index)
        } else {
            None
        },
        None => None,
    }
}

/// `found` is the answer of the matcher for the window and the course: the place
/// of the occurrence that matches, or nothing where none does.
pub open spec fn match_of(window: &TimeSlotToBook, course: &JohnReedCourse, found: Option<usize>) -> bool {
    match matched_slot(window, course) {
        Some(index) => found == Some(index as usize),
        None => found is None,
    }
}

/// `selected` is the answer of the matcher for the window and the course when the
/// clock reads `now`: the occurrence to book, or nothing.
pub open spec fn selection_of(
    window: &TimeSlotToBook,
    course: &JohnReedCourse,
    now: i64,
    selected: Option<&JohnReedSlot>,
) -> bool {
    match selected_slot(window, course, now) {
        Some(index) => selected == Some(&course.slots@[index]),
        None => selected is None,
    }
}

/// Whether the occurrence fits the window.
pub fn fits(window: &TimeSlotToBook, slot: &JohnReedSlot) -> (fit: bool)
    ensures
        fit == slot_fits(window, slot),
{
    let start = match &slot.start_date_time {
        Some(start) => start,
        None => {
            return false;
        },
    };
    let end = match &slot.end_date_time {
        Some(end) => end,
        None => {
            return false;
        },
    };
    let start_time = start.time();
    let end_time = end.time();
    window.contains(start.weekday(), &start_time, &end_time)
}

/// The place in `course.slots` of the occurrence that matches the window: the
/// first one that fits, unless the course has been canceled.
pub fn find_slot(window: &TimeSlotToBook, course: &JohnReedCourse) -> (found: Option<usize>)
    ensures
        match_of(window, course, found),
        found matches Some(index) ==> index < course.slots.len() && matched_slot(window, course)
            == Some(index as int),
{
    if !course.is_bookable() {
        return None;
    }
    let ghost holds = |at: int| slot_fits(window, &course.slots@[at]);
    let mut index: usize = 0;
    while index < course.slots.len()
        invariant
            course.spec_is_bookable(),
            index <= course.slots.len(),
            holds == |at: int| slot_fits(window, &course.slots@[at]),
            forall|earlier: int| 0 <= earlier < index ==> !#[trigger] holds(earlier),
        decreases course.slots.len() - index,
    {
        if fits(window, &course.slots[index]) {
            proof {
                lemma_first_found(holds, course.slots.len() as int, index as int);
            }
            return Some(index);
        }
        index += 1;
    }
    proof {
        lemma_first_absent(holds, course.slots.len() as int);
    }
    None
}

/// The occurrence to book for the window when the clock reads `now` seconds since
/// the Unix epoch: the one that matches, if it can be booked then.
pub fn select_slot<'a>(window: &TimeSlotToBook, course: &'a JohnReedCourse, now: i64) -> (selected:
    Option<&'a JohnReedSlot>)
    ensures
        selection_of(window, course, now, selected),
        selected matches Some(slot) ==> slot_fits(window, slot) && slot.spec_is_bookable_at(now),
{
    proof {
        lemma_first(|index: int| slot_fits(window, &course.slots@[index]), course.slots.len() as int);
    }
    match find_slot(window, course) {
        Some(index) => {
            let slot = &course.slots[index];
            if slot.is_bookable_at(now) {
                Some(slot)
            } else {
                None
            }
        },
        None => None,
    }
}

/// An occurrence is selected only if it lies within the window: it starts on the
/// window's day of the week, no earlier than the window, and ends no later.
pub proof fn selected_slot_lies_within_window(
    window: &TimeSlotToBook,
    course: &JohnReedCourse,
    now: i64,
    index: int,
)
    requires
        selected_slot(window, course, now) == Some(index),
    ensures
        0 <= index < course.slots@.len(),
        course.slots@[index].start_date_time matches Some(start)
            && course.slots@[index].end_date_time matches Some(end) && {
            &&& start@.weekday() == window.day
            &&& window.start_time.spec_le(&start@.time())
            &&& end@.time().spec_le(&window.end_time)
        },
{
    lemma_first(|at: int| slot_fits(window, &course.slots@[at]), course.slots@.len() as int);
}

/// An occurrence that the member has already booked is never selected, whether it
/// lies within the window or not.
pub proof fn booked_slot_is_never_selected(
    window: &TimeSlotToBook,
    course: &JohnReedCourse,
    now: i64,
    index: int,
)
    requires
        0 <= index < course.slots@.len(),
        course.slots@[index].already_booked,
    ensures
        selected_slot(window, course, now) != Some(index),
{
}

/// An occurrence that the studio does not offer for booking is never selected.
pub proof fn unbookable_slot_is_never_selected(
    window: &TimeSlotToBook,
    course: &JohnReedCourse,
    now: i64,
    index: int,
)
    requires
        0 <= index < course.slots@.len(),
        !course.slots@[index].bookable,
    ensures
        selected_slot(window, course, now) != Some(index),
{
}

/// An occurrence for which the studio does not say from when it takes bookings is
/// never selected.
pub proof fn slot_without_booking_time_is_never_selected(
    window: &TimeSlotToBook,
    course: &JohnReedCourse,
    now: i64,
    index: int,
)
    requires
        0 <= index < course.slots@.len(),
        course.slots@[index].earliest_booking_date_time is None,
    ensures
        selected_slot(window, course, now) != Some(index),
{
}

/// An occurrence that has begun before the clock's reading is never selected.
pub proof fn past_slot_is_never_selected(
    window: &TimeSlotToBook,
    course: &JohnReedCourse,
    now: i64,
    index: int,
)
    requires
        0 <= index < course.slots@.len(),
        course.slots@[index].start_date_time matches Some(start) && start@.secs < now,
    ensures
        selected_slot(window, course, now) != Some(index),
{
}

/// No occurrence of a canceled course is matched or selected.
pub proof fn canceled_course_has_no_match(window: &TimeSlotToBook, course: &JohnReedCourse, now: i64)
    requires
        !course.spec_is_bookable(),
    ensures
        matched_slot(window, course) is None,
        selected_slot(window, course, now) is None,
{
}

/// An occurrence that is selected stays selected for as long as it has not begun:
/// the matcher keeps no record of what it has selected before, so whoever asks
/// again before then is given the same occurrence again.
pub proof fn selection_lasts_until_the_start(
    window: &TimeSlotToBook,
    course: &JohnReedCourse,
    now: i64,
    later: i64,
    index: int,
)
    requires
        selected_slot(window, course, now) == Some(index),
        course.slots@[index].start_date_time matches Some(start) && later <= start@.secs,
    ensures
        selected_slot(window, course, later) == Some(index),
{
}

/// Matching is a function of the window and the course: two answers to the same
/// question are the same answer.
pub proof fn matching_is_a_function(
    window: &TimeSlotToBook,
    course: &JohnReedCourse,
    once: Option<usize>,
    again: Option<usize>,
)
    requires
        match_of(window, course, once),
        match_of(window, course, again),
    ensures
        once == again,
{
}

/// Selecting is a function of the window, the course and the clock's reading.
/// Whether an occurrence is past depends on the clock, so two answers need not
/// agree where the clock has moved on between them.
pub proof fn selecting_is_a_function(
    window: &TimeSlotToBook,
    course: &JohnReedCourse,
    now: i64,
    once: Option<&JohnReedSlot>,
    again: Option<&JohnReedSlot>,
)
    requires
        selection_of(window, course, now, once),
        selection_of(window, course, now, again),
    ensures
        once == again,
{
}

} // verus!
