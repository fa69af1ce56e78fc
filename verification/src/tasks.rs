//! The reconciliation pass and the deferred booking, as the decisions they make.
//!
//! Both talk to the studio's booking service, which this library does not do
//! itself. Each is therefore written as a step function: it is told what the last
//! request brought, and answers with the next request to make. Whoever drives it
//! performs the request and comes back with the outcome.
//!
//! Neither keeps a record of the bookings that have been scheduled. A pass that
//! finds an occurrence for which an earlier pass has scheduled a booking that has
//! not fired yet schedules another one, and both will be made: that the studio
//! refuses the second is relied on, not seen to here.

use crate::app_state::AppState;
use crate::app_state::CourseToBook;
use crate::app_state::TimeSlotToBook;
use crate::app_state::User;
use crate::datetime::DateTime;
use crate::fetch::booked_status;
use crate::fetch::BookableCoursesParams;
use crate::fetch::JohnReedBookCorsePayload;
use crate::fetch::JohnReedCourse;
use crate::fetch::JohnReedHomeStudio;
use crate::fetch::JohnReedLoginPayload;
use crate::matcher::select_slot;
use crate::matcher::selected_slot;
use crate::search::first;
use crate::search::lemma_first_absent;
use crate::search::lemma_first_found;
use vstd::prelude::*;

verus! {

/// How long after the beginning of one reconciliation pass the next one begins,
/// in seconds. A pass never waits for the bookings it has scheduled.
pub const POLL_INTERVAL_SECONDS: u64 = 30;

/// How far ahead of the clock the catalog is fetched: seven days, in seconds.
pub const HORIZON_SECONDS: i64 = 604_800;

/// A booking to make later: for which member, of which course, and from when the
/// studio takes it. One is made for every window that finds an occurrence; it is
/// used once, when its time has come, and is not kept anywhere else.
#[derive(Debug)]
pub struct ScheduledBooking {
    pub username: String,
    pub course_id: i64,
    pub fire_at: DateTime,
}

/// The place of the first course in `catalog` that is called exactly `name`, if
/// there is one.
pub open spec fn course_named(catalog: Seq<JohnReedCourse>, name: Seq<char>) -> Option<int> {
    first(|index: int| catalog[index].name@ == name, catalog.len() as int)
}

/// The booking that a window yields when the clock reads `now` seconds since the
/// Unix epoch: one for the occurrence that the matcher selects, to fire when the
/// studio starts to take bookings for it.
pub open spec fn window_booking(
    user: &User,
    course: &JohnReedCourse,
    window: &TimeSlotToBook,
    now: i64,
) -> Option<ScheduledBooking> {
    match selected_slot(window, course, now) {
        Some(index) => Some(
            ScheduledBooking {
                username: user.username,
                course_id: course.id,
                fire_at: course.slots@[index].earliest_booking_date_time->0,
            },
        ),
        None => None,
    }
}

/// The bookings that the windows yield for one course, in the order of the
/// windows.
pub open spec fn course_bookings(
    user: &User,
    course: &JohnReedCourse,
    windows: Seq<TimeSlotToBook>,
    now: i64,
) -> Seq<ScheduledBooking>
    decreases windows.len(),
{
    if windows.len() == 0 {
        Seq::empty()
    } else {
        let before = course_bookings(user, course, windows.drop_last(), now);
        match window_booking(user, course, &windows.last(), now) {
            Some(booking) => before.push(booking),
            None => before,
        }
    }
}

/// The bookings for one wanted course: those of its windows against the course of
/// that name in the catalog, none if the catalog has no such course.
pub open spec fn desire_bookings(
    user: &User,
    catalog: Seq<JohnReedCourse>,
    desire: &CourseToBook,
    now: i64,
) -> Seq<ScheduledBooking> {
    match course_named(catalog, desire.name@) {
        Some(index) => course_bookings(user, &catalog[index], desire.time_slots@, now),
        None => Seq::empty(),
    }
}

/// The bookings for the wanted courses `desires` of a member, in their order.
pub open spec fn user_bookings(
    user: &User,
    catalog: Seq<JohnReedCourse>,
    desires: Seq<CourseToBook>,
    now: i64,
) -> Seq<ScheduledBooking>
    decreases desires.len(),
{
    if desires.len() == 0 {
        Seq::empty()
    } else {
        user_bookings(user, catalog, desires.drop_last(), now) + desire_bookings(
            user,
            catalog,
            &desires.last(),
            now,
        )
    }
}

/// The place of the first course in `catalog` that is called exactly `name`.
pub fn find_course(catalog: &Vec<JohnReedCourse>, name: &String) -> (found: Option<usize>)
    ensures
        found matches Some(index) ==> course_named(catalog@, name@) == Some(index as int),
        found is None ==> course_named(catalog@, name@) is None,
{
    let ghost holds = |at: int| catalog@[at].name@ == name@;
    let mut index: usize = 0;
    while index < catalog.len()
        invariant
            index <= catalog.len(),
            holds == |at: int| catalog@[at].name@ == name@,
            forall|earlier: int| 0 <= earlier < index ==> !#[trigger] holds(earlier),
        decreases catalog.len() - index,
    {
        if catalog[index].name == *name {
            proof {
                lemma_first_found(holds, catalog.len() as int, index as int);
            }
            return Some(index);
        }
        index += 1;
    }
    proof {
        lemma_first_absent(holds, catalog.len() as int);
    }
    None
}

/// The bookings to schedule for a member, given the catalog just fetched for them
/// and the clock's reading `now` in seconds since the Unix epoch.
///
/// The wanted courses are taken in the member's order and the windows of each in
/// theirs. A wanted course that the catalog does not list under exactly its name,
/// or lists as canceled, yields nothing. Each window yields at most one booking.
pub fn plan_bookings(user: &User, catalog: &Vec<JohnReedCourse>, now: i64) -> (bookings: Vec<
    ScheduledBooking,
>)
    ensures
        bookings@ == user_bookings(user, catalog@, user.courses@, now),
{
    let mut bookings: Vec<ScheduledBooking> = Vec::new();
    let mut wanted: usize = 0;
    while wanted < user.courses.len()
        invariant
            wanted <= user.courses.len(),
            bookings@ == user_bookings(user, catalog@, user.courses@.take(wanted as int), now),
        decreases user.courses.len() - wanted,
    {
        let desire = &user.courses[wanted];
        let ghost before = bookings@;
        proof {
            let upto = user.courses@.take(wanted + 1);
            assert(upto.drop_last() == user.courses@.take(wanted as int));
        }
        match find_course(catalog, &desire.name) {
            Some(place) => {
                let course = &catalog[place];
                if course.is_bookable() {
                    let mut at: usize = 0;
                    while at < desire.time_slots.len()
                        invariant
                            at <= desire.time_slots.len(),
                            bookings@ == before + course_bookings(
                                user,
                                course,
                                desire.time_slots@.take(at as int),
                                now,
                            ),
                        decreases desire.time_slots.len() - at,
                    {
                        let window = &desire.time_slots[at];
                        proof {
                            let upto = desire.time_slots@.take(at + 1);
                            assert(upto.drop_last() == desire.time_slots@.take(at as int));
                        }
                        match select_slot(window, course, now) {
                            Some(slot) => {
                                match slot.earliest_booking_date_time {
                                    Some(fire_at) => {
                                        bookings.push(
                                            ScheduledBooking {
                                                username: user.username.clone(),
                                                course_id: course.id,
                                                fire_at,
                                            },
                                        );
                                    },
                                    None => {},
                                }
                            },
                            None => {},
                        }
                        at += 1;
                    }
                    proof {
                        assert(desire.time_slots@.take(desire.time_slots.len() as int)
                            == desire.time_slots@);
                    }
                } else {
                    proof {
                        canceled_course_yields_nothing(user, course, desire.time_slots@, now);
                    }
                }
            },
            None => {},
        }
        wanted += 1;
    }
    proof {
        assert(user.courses@.take(user.courses.len() as int) == user.courses@);
    }
    bookings
}

/// A canceled course yields no booking, whatever the windows.
pub proof fn canceled_course_yields_nothing(
    user: &User,
    course: &JohnReedCourse,
    windows: Seq<TimeSlotToBook>,
    now: i64,
)
    requires
        !course.spec_is_bookable(),
    ensures
        course_bookings(user, course, windows, now) == Seq::<ScheduledBooking>::empty(),
    decreases windows.len(),
{
    if windows.len() > 0 {
        canceled_course_yields_nothing(user, course, windows.drop_last(), now);
    }
}

/// The windows of a wanted course yield at most one booking each.
pub proof fn window_yields_at_most_one_booking(
    user: &User,
    course: &JohnReedCourse,
    windows: Seq<TimeSlotToBook>,
    now: i64,
)
    ensures
        course_bookings(user, course, windows, now).len() <= windows.len(),
    decreases windows.len(),
{
    if windows.len() > 0 {
        window_yields_at_most_one_booking(user, course, windows.drop_last(), now);
    }
}

/// Every booking that the windows of a wanted course yield is the booking of one
/// of the windows: it is for the member and for that course, and fires when the
/// studio starts to take bookings for the occurrence that the matcher selects
/// for that window.
pub proof fn booking_comes_from_a_window(
    user: &User,
    course: &JohnReedCourse,
    windows: Seq<TimeSlotToBook>,
    now: i64,
    place: int,
)
    requires
        0 <= place < course_bookings(user, course, windows, now).len(),
    ensures
        exists|at: int|
            0 <= at < windows.len() && window_booking(user, course, &#[trigger] windows[at], now)
                == Some(course_bookings(user, course, windows, now)[place]),
    decreases windows.len(),
{
    if windows.len() > 0 {
        let before = course_bookings(user, course, windows.drop_last(), now);
        if place < before.len() {
            booking_comes_from_a_window(user, course, windows.drop_last(), now, place);
            let at = choose|at: int|
                0 <= at < windows.drop_last().len() && window_booking(
                    user,
                    course,
                    &#[trigger] windows.drop_last()[at],
                    now,
                ) == Some(before[place]);
            assert(windows.drop_last()[at] == windows[at]);
        } else {
            assert(windows.last() == windows[windows.len() - 1]);
        }
    }
}

/// Where a reconciliation pass stands.
#[derive(Clone, Copy, Debug, PartialEq, Eq, Structural)]
pub enum PassPhase {
    /// Nothing has been asked yet.
    Start,
    /// The member has been asked to be signed in.
    AwaitLogin,
    /// The member's home studio has been asked for.
    AwaitHomeStudio,
    /// The catalog of the member's studio has been asked for.
    AwaitCourses,
    /// Every member has had their turn.
    Finished,
}

/// The state of a reconciliation pass: the member whose turn it is, by their place
/// in the configuration, and how far their turn has come.
#[derive(Clone, Copy, Debug, PartialEq, Eq, Structural)]
pub struct PassState {
    pub user: usize,
    pub phase: PassPhase,
}

/// What the last request of a pass brought.
#[derive(Debug)]
pub enum PassEvent {
    /// The pass is due; nothing was requested before.
    Tick,
    /// The member is signed in.
    LoginSucceeded,
    /// The studio refused the sign-in, or could not be reached.
    LoginFailed,
    /// The member's home studio.
    HomeStudio(JohnReedHomeStudio),
    /// The home studio could not be fetched.
    HomeStudioFailed,
    /// The catalog of the member's studio.
    Courses(Vec<JohnReedCourse>),
    /// The catalog could not be fetched.
    CoursesFailed,
}

/// The request a pass wants made next.
#[derive(Debug)]
pub enum PassAction {
    /// Sign the member in.
    Login(JohnReedLoginPayload),
    /// Fetch the home studio of the member who is signed in.
    GetHomeStudio,
    /// Fetch this part of the catalog.
    GetBookableCourses(BookableCoursesParams),
    /// Nothing: the pass is over.
    Finish,
}

/// The answer of a pass to an event: its new state, the bookings to schedule now,
/// and the request to make next.
#[derive(Debug)]
pub struct PassStep {
    pub state: PassState,
    pub bookings: Vec<ScheduledBooking>,
    pub action: PassAction,
}

impl PassState {
    /// The state of a pass that has not begun.
    pub open spec fn spec_start() -> PassState {
        PassState { user: 0, phase: PassPhase::Start }
    }

    /// The state of a pass that has not begun.
    #[verifier::when_used_as_spec(spec_start)]
    pub fn start() -> (state: PassState)
        ensures
            state == PassState::spec_start(),
    {
        PassState { user: 0, phase: PassPhase::Start }
    }

    /// While a member's turn lasts, the state names a member that exists.
    pub open spec fn wf(&self, app_state: &AppState) -> bool {
        match self.phase {
            PassPhase::AwaitLogin | PassPhase::AwaitHomeStudio | PassPhase::AwaitCourses => self.user
                < app_state.users.len(),
            _ => true,
        }
    }

    /// An upper bound on the number of steps that the pass has left.
    pub open spec fn steps_left(&self, app_state: &AppState) -> int {
        let members = app_state.users.len() - self.user;
        match self.phase {
            PassPhase::Start => 3 * app_state.users.len() + 1,
            PassPhase::AwaitLogin => 3 * members,
            PassPhase::AwaitHomeStudio => 3 * members - 1,
            PassPhase::AwaitCourses => 3 * members - 2,
            PassPhase::Finished => 0,
        }
    }
}

/// A pass over `n` members is over after at most `3 n + 1` steps: it begins with
/// that many steps left, each step leaves fewer (see [`schedule_book_courses`]),
/// and there are never fewer than none, which is when the pass is over.
pub proof fn pass_is_over_when_no_steps_are_left(app_state: &AppState, state: PassState)
    requires
        state.wf(app_state),
    ensures
        PassState::spec_start().steps_left(app_state) == 3 * app_state.users.len() + 1,
        state.steps_left(app_state) >= 0,
        state.steps_left(app_state) == 0 <==> state.phase == PassPhase::Finished,
{
}

/// The credentials with which a member signs in.
pub open spec fn login_payload(user: &User) -> JohnReedLoginPayload {
    JohnReedLoginPayload { username: user.username, password: Some(user.password) }
}

/// State and request at the start of the turn of the member at place `user`: a
/// sign-in, or the end of the pass if there is no such member.
pub open spec fn turn_of(app_state: &AppState, user: int) -> (PassState, PassAction) {
    if 0 <= user < app_state.users.len() {
        (
            PassState { user: user as usize, phase: PassPhase::AwaitLogin },
            PassAction::Login(login_payload(&app_state.users@[user])),
        )
    } else {
        (PassState { user: app_state.users.len(), phase: PassPhase::Finished }, PassAction::Finish)
    }
}

/// The part of the catalog to fetch for a studio when the clock shows `now`: what
/// takes place there from `now` to the end of the horizon. The end is left open
/// where it would lie past the last instant that can be represented.
pub open spec fn horizon(now: &DateTime, studio: i64) -> BookableCoursesParams {
    BookableCoursesParams {
        start_date: *now,
        end_date: now.spec_checked_add_seconds(HORIZON_SECONDS),
        organization_unit_ids: Some(studio),
    }
}

/// New state and next request of a pass over the members of `app_state` that is
/// in `state` when `event` arrives and the clock shows `now`.
///
/// The members are taken in the order of the configuration. A member's turn is a
/// sign-in, the fetch of their home studio, and the fetch of that studio's catalog
/// within the horizon. Any event but the one that completes the request just made
/// ends the turn, and the next member's begins: what fails for one member never
/// touches another.
pub open spec fn pass_transition(
    app_state: &AppState,
    state: PassState,
    event: PassEvent,
    now: &DateTime,
) -> (PassState, PassAction) {
    if !state.wf(app_state) {
        turn_of(app_state, app_state.users.len() as int)
    } else {
        match state.phase {
            PassPhase::Start => turn_of(app_state, 0),
            PassPhase::AwaitLogin => match event {
                PassEvent::LoginSucceeded => (
                    PassState { user: state.user, phase: PassPhase::AwaitHomeStudio },
                    PassAction::GetHomeStudio,
                ),
                _ => turn_of(app_state, state.user + 1),
            },
            PassPhase::AwaitHomeStudio => match event {
                PassEvent::HomeStudio(studio) => (
                    PassState { user: state.user, phase: PassPhase::AwaitCourses },
                    PassAction::GetBookableCourses(horizon(now, studio.id)),
                ),
                _ => turn_of(app_state, state.user + 1),
            },
            PassPhase::AwaitCourses => turn_of(app_state, state.user + 1),
            PassPhase::Finished => turn_of(app_state, app_state.users.len() as int),
        }
    }
}

/// The bookings that a pass schedules on an event: those of the member whose
/// catalog has just arrived, and none on any other event.
pub open spec fn pass_bookings(
    app_state: &AppState,
    state: PassState,
    event: PassEvent,
    now: &DateTime,
) -> Seq<ScheduledBooking> {
    if state.wf(app_state) && state.phase == PassPhase::AwaitCourses {
        match event {
            PassEvent::Courses(catalog) => {
                let user = &app_state.users@[state.user as int];
                user_bookings(user, catalog@, user.courses@, now@.secs as i64)
            },
            _ => Seq::empty(),
        }
    } else {
        Seq::empty()
    }
}

/// Begins the turn of the member at place `user`, or ends the pass.
fn begin_turn(app_state: &AppState, user: usize) -> (step: PassStep)
    ensures
        (step.state, step.action) == turn_of(app_state, user as int),
        step.bookings@ == Seq::<ScheduledBooking>::empty(),
{
    if user < app_state.users.len() {
        let member = &app_state.users[user];
        PassStep {
            state: PassState { user, phase: PassPhase::AwaitLogin },
            bookings: Vec::new(),
            action: PassAction::Login(
                JohnReedLoginPayload {
                    username: member.username.clone(),
                    password: Some(member.password.clone()),
                },
            ),
        }
    } else {
        PassStep {
            state: PassState { user: app_state.users.len(), phase: PassPhase::Finished },
            bookings: Vec::new(),
            action: PassAction::Finish,
        }
    }
}

/// One step of the reconciliation pass: what to do when `event` arrives while the
/// pass is in `state` and the clock shows `now`.
///
/// A pass begins in [`PassState::start`] with any event, and is over when the
/// action is [`PassAction::Finish`]. The bookings in the answer are to be
/// scheduled at once; the pass does not wait for any of them.
pub fn schedule_book_courses(
    app_state: &AppState,
    state: PassState,
    event: PassEvent,
    now: &DateTime,
) -> (step: PassStep)
    ensures
        (step.state, step.action) == pass_transition(app_state, state, event, now),
        step.bookings@ == pass_bookings(app_state, state, event, now),
        step.state.wf(app_state),
        state.wf(app_state) && state.phase != PassPhase::Finished ==> step.state.steps_left(app_state)
            < state.steps_left(app_state),
{
    let members = app_state.users.len();
    match state.phase {
        PassPhase::Start => begin_turn(app_state, 0),
        PassPhase::Finished => begin_turn(app_state, members),
        PassPhase::AwaitLogin => {
            if state.user >= members {
                return begin_turn(app_state, members);
            }
            match event {
                PassEvent::LoginSucceeded => PassStep {
                    state: PassState { user: state.user, phase: PassPhase::AwaitHomeStudio },
                    bookings: Vec::new(),
                    action: PassAction::GetHomeStudio,
                },
                _ => begin_turn(app_state, state.user + 1),
            }
        },
        PassPhase::AwaitHomeStudio => {
            if state.user >= members {
                return begin_turn(app_state, members);
            }
            match event {
                PassEvent::HomeStudio(studio) => PassStep {
                    state: PassState { user: state.user, phase: PassPhase::AwaitCourses },
                    bookings: Vec::new(),
                    action: PassAction::GetBookableCourses(
                        BookableCoursesParams {
                            start_date: *now,
                            end_date: now.checked_add_seconds(HORIZON_SECONDS),
                            organization_unit_ids: Some(studio.id),
                        },
                    ),
                },
                _ => begin_turn(app_state, state.user + 1),
            }
        },
        PassPhase::AwaitCourses => {
            if state.user >= members {
                return begin_turn(app_state, members);
            }
            let next = begin_turn(app_state, state.user + 1);
            match event {
                PassEvent::Courses(catalog) => {
                    let bookings = plan_bookings(
                        &app_state.users[state.user],
                        &catalog,
                        now.timestamp(),
                    );
                    PassStep { state: next.state, bookings, action: next.action }
                },
                _ => next,
            }
        },
    }
}

/// Where a deferred booking stands once its time has come.
#[derive(Clone, Copy, Debug, PartialEq, Eq, Structural)]
pub enum BookingPhase {
    /// The booking has just fired.
    Start,
    /// The member has been asked to be signed in.
    AwaitLogin,
    /// The booking has been asked for.
    AwaitBooking,
    /// The booking is over, made or not.
    Finished,
}

/// What the last request of a deferred booking brought.
#[derive(Clone, Copy, Debug, PartialEq, Eq, Structural)]
pub enum BookingEvent {
    /// The time of the booking has come; nothing was requested before.
    Fired,
    /// The member is signed in.
    LoginSucceeded,
    /// The studio refused the sign-in, or could not be reached.
    LoginFailed,
    /// The studio made the booking.
    BookingSucceeded,
    /// The studio refused the booking, or could not be reached.
    BookingFailed,
}

/// The request a deferred booking wants made next.
#[derive(Debug)]
pub enum BookingAction {
    /// Sign the member in.
    Login(JohnReedLoginPayload),
    /// Book the course for the member who is signed in.
    BookCourse(JohnReedBookCorsePayload),
    /// Nothing: the booking is over.
    Finish,
}

/// The place of the first member in `users` that is called exactly `name`, if
/// there is one.
pub open spec fn member_named(users: Seq<User>, name: Seq<char>) -> Option<int> {
    first(|index: int| users[index].username@ == name, users.len() as int)
}

/// The booking for the member `user_name` of the course `course_id`, in `phase`
/// when `event` arrives, goes on to the phase `next` and asks for `action`.
///
/// The member is signed in first, with the credentials that the configuration
/// holds under that name; a name that the configuration does not hold ends the
/// booking. Then the course is booked, and the studio is told that the member
/// expects to be booked. Any event but the one that completes the request just
/// made ends the booking, and nothing is tried a second time.
pub open spec fn booking_step(
    app_state: &AppState,
    user_name: Seq<char>,
    course_id: i64,
    phase: BookingPhase,
    event: BookingEvent,
    next: BookingPhase,
    action: BookingAction,
) -> bool {
    let over = next == BookingPhase::Finished && action is Finish;
    match phase {
        BookingPhase::Start => match member_named(app_state.users@, user_name) {
            Some(index) => {
                &&& next == BookingPhase::AwaitLogin
                &&& action == BookingAction::Login(login_payload(&app_state.users@[index]))
            },
            None => over,
        },
        BookingPhase::AwaitLogin => match event {
            BookingEvent::LoginSucceeded => {
                &&& next == BookingPhase::AwaitBooking
                &&& action matches BookingAction::BookCourse(payload)
                &&& payload.course_appointment_id == course_id
                &&& payload.expected_customer_status@ == booked_status()
            },
            _ => over,
        },
        _ => over,
    }
}

/// The place of the first member of the configuration that is called exactly
/// `name`.
pub fn find_user(app_state: &AppState, name: &String) -> (found: Option<usize>)
    ensures
        found matches Some(index) ==> member_named(app_state.users@, name@) == Some(index as int),
        found is None ==> member_named(app_state.users@, name@) is None,
{
    let ghost holds = |at: int| app_state.users@[at].username@ == name@;
    let mut index: usize = 0;
    while index < app_state.users.len()
        invariant
            index <= app_state.users.len(),
            holds == |at: int| app_state.users@[at].username@ == name@,
            forall|earlier: int| 0 <= earlier < index ==> !#[trigger] holds(earlier),
        decreases app_state.users.len() - index,
    {
        if app_state.users[index].username == *name {
            proof {
                lemma_first_found(holds, app_state.users.len() as int, index as int);
            }
            return Some(index);
        }
        index += 1;
    }
    proof {
        lemma_first_absent(holds, app_state.users.len() as int);
    }
    None
}

/// One step of a deferred booking whose time has come: what to do when `event`
/// arrives while the booking of course `course_id` for the member `user_name` is
/// in `phase`.
///
/// A booking begins in [`BookingPhase::Start`] with any event, and is over when
/// the action is [`BookingAction::Finish`].
pub fn book_courses(
    app_state: &AppState,
    user_name: &String,
    course_id: i64,
    phase: BookingPhase,
    event: BookingEvent,
) -> (step: (BookingPhase, BookingAction))
    ensures
        booking_step(app_state, user_name@, course_id, phase, event, step.0, step.1),
{
    match phase {
        BookingPhase::Start => match find_user(app_state, user_name) {
            Some(index) => {
                let member = &app_state.users[index];
                (
                    BookingPhase::AwaitLogin,
                    BookingAction::Login(
                        JohnReedLoginPayload {
                            username: member.username.clone(),
                            password: Some(member.password.clone()),
                        },
                    ),
                )
            },
            None => (BookingPhase::Finished, BookingAction::Finish),
        },
        BookingPhase::AwaitLogin => match event {
            BookingEvent::LoginSucceeded => (
                BookingPhase::AwaitBooking,
                BookingAction::BookCourse(
                    JohnReedBookCorsePayload {
                        course_appointment_id: course_id,
                        expected_customer_status: String::from_str("BOOKED"),
                    },
                ),
            ),
            _ => (BookingPhase::Finished, BookingAction::Finish),
        },
        _ => (BookingPhase::Finished, BookingAction::Finish),
    }
}

} // verus!
