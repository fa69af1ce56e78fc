//! What the agent exchanges with the studio's booking service: the requests it
//! sends and the catalog it gets back.

pub mod chrono_datetime_fixed_offset;

use crate::datetime::current_timestamp;
use crate::datetime::DateTime;
use crate::datetime::MAX_TIMESTAMP;
use crate::datetime::MIN_TIMESTAMP;
use vstd::prelude::*;

verus! {

/// The status under which the studio lists a course that will not take place.
pub open spec fn canceled_status() -> Seq<char> {
    "CANCELED"@
}

/// The status a booking request asks the studio to give the member.
pub open spec fn booked_status() -> Seq<char> {
    "BOOKED"@
}

/// The address under which the studio lists its courses, up to the query.
pub open spec fn bookable_courses_endpoint() -> Seq<char> {
    "https://my.johnreed.fitness/nox/v2/bookableitems/courses/with-canceled?"@
}

/// The character for a digit from 0 to 9.
pub open spec fn digit_char(digit: int) -> char {
    if digit == 0 {
        '0'
    } else if digit == 1 {
        '1'
    } else if digit == 2 {
        '2'
    } else if digit == 3 {
        '3'
    } else if digit == 4 {
        '4'
    } else if digit == 5 {
        '5'
    } else if digit == 6 {
        '6'
    } else if digit == 7 {
        '7'
    } else if digit == 8 {
        '8'
    } else {
        '9'
    }
}

/// A natural number in decimal digits, without leading zeros.
pub open spec fn decimal_digits(n: nat) -> Seq<char>
    decreases n,
{
    if n < 10 {
        seq![digit_char(n as int)]
    } else {
        decimal_digits(n / 10).push(digit_char((n % 10) as int))
    }
}

/// An integer in decimal digits, with a minus sign before them if it is negative.
pub open spec fn decimal_text(n: int) -> Seq<char> {
    if n < 0 {
        seq!['-'] + decimal_digits((-n) as nat)
    } else {
        decimal_digits(n as nat)
    }
}

/// The text of a digit from 0 to 9.
fn digit_text(digit: u64) -> (text: &'static str)
    requires
        digit < 10,
    ensures
        text@ == seq![digit_char(digit as int)],
{
    proof {
        reveal_strlit("0");
        reveal_strlit("1");
        reveal_strlit("2");
        reveal_strlit("3");
        reveal_strlit("4");
        reveal_strlit("5");
        reveal_strlit("6");
        reveal_strlit("7");
        reveal_strlit("8");
        reveal_strlit("9");
    }
    let text = if digit == 0 {
        "0"
    } else if digit == 1 {
        "1"
    } else if digit == 2 {
        "2"
    } else if digit == 3 {
        "3"
    } else if digit == 4 {
        "4"
    } else if digit == 5 {
        "5"
    } else if digit == 6 {
        "6"
    } else if digit == 7 {
        "7"
    } else if digit == 8 {
        "8"
    } else {
        "9"
    };
    assert(text@ =~= seq![digit_char(digit as int)]);
    text
}

/// A natural number in decimal digits, without leading zeros.
fn decimal_digits_of(n: u64) -> (text: String)
    ensures
        text@ == decimal_digits(n as nat),
    decreases n,
{
    if n < 10 {
        String::from_str(digit_text(n))
    } else {
        let mut text = decimal_digits_of(n / 10);
        text.append(digit_text(n % 10));
        text
    }
}

/// An integer in decimal digits, with a minus sign before them if it is negative.
pub fn decimal(n: i64) -> (text: String)
    ensures
        text@ == decimal_text(n as int),
{
    if n < 0 {
        let magnitude: u64 = if n == i64::MIN {
            9_223_372_036_854_775_808
        } else {
            (-n) as u64
        };
        proof {
            reveal_strlit("-");
            assert("-"@ =~= seq!['-']);
        }
        let mut text = String::from_str("-");
        text.append(decimal_digits_of(magnitude).as_str());
        text
    } else {
        decimal_digits_of(n as u64)
    }
}

/// Credentials for signing in.
#[derive(Debug)]
pub struct JohnReedLoginPayload {
    pub username: String,
    pub password: Option<String>,
}

/// A request to book one course for the member who is signed in.
#[derive(Debug)]
pub struct JohnReedBookCorsePayload {
    pub course_appointment_id: i64,
    pub expected_customer_status: String,
}

/// Which part of the catalog to fetch: the courses from `start_date` to `end_date`
/// at one studio.
#[derive(Debug)]
pub struct BookableCoursesParams {
    pub start_date: DateTime,
    pub end_date: Option<DateTime>,
    pub organization_unit_ids: Option<i64>,
}

impl BookableCoursesParams {
    /// The address from which this part of the catalog is fetched: the studio's
    /// listing with the first day, then the last day and the studio where they are
    /// given. Days are written as local calendar dates.
    pub open spec fn spec_url(&self) -> Seq<char> {
        bookable_courses_endpoint() + "startDate="@ + self.start_date@.date_text() + (
        match self.end_date {
            Some(end) => "&endDate="@ + end@.date_text(),
            None => Seq::empty(),
        }) + (match self.organization_unit_ids {
            Some(id) => "&organizationUnitIds="@ + decimal_text(id as int),
            None => Seq::empty(),
        })
    }

    /// The address from which this part of the catalog is fetched.
    pub fn url(&self) -> (url: String)
        ensures
            url@ == self.spec_url(),
    {
        let mut url = String::from_str(
            "https://my.johnreed.fitness/nox/v2/bookableitems/courses/with-canceled?",
        );
        url.append("startDate=");
        url.append(self.start_date.format_date().as_str());
        match &self.end_date {
            Some(end) => {
                url.append("&endDate=");
                url.append(end.format_date().as_str());
            },
            None => {},
        }
        match self.organization_unit_ids {
            Some(id) => {
                url.append("&organizationUnitIds=");
                url.append(decimal(id).as_str());
            },
            None => {},
        }
        url
    }
}

/// The member who is signed in.
#[derive(Debug)]
pub struct JohnReedMe {
    pub id: i64,
    pub name: String,
    pub email: String,
}

/// The studio a member belongs to.
#[derive(Debug)]
pub struct JohnReedHomeStudio {
    pub id: i64,
    pub name: String,
    pub email: Option<String>,
}

/// A course as the studio advertises it, with its occurrences in the studio's
/// order.
#[derive(Debug)]
pub struct JohnReedCourse {
    pub id: i64,
    pub name: String,
    pub description: Option<String>,
    pub appointment_status: String,
    pub slots: Vec<JohnReedSlot>,
}

impl JohnReedCourse {
    /// The course has not been canceled.
    pub open spec fn spec_is_bookable(&self) -> bool {
        self.appointment_status@ != canceled_status()
    }

    /// Whether the course has not been canceled.
    pub fn is_bookable(&self) -> (bookable: bool)
        ensures
            bookable == self.spec_is_bookable(),
    {
        let canceled = String::from_str("CANCELED");
        !(self.appointment_status == canceled)
    }
}

/// One occurrence of a course. An occurrence without a start or an end cannot be
/// scheduled.
#[derive(Clone, Copy, Debug)]
pub struct JohnReedSlot {
    pub start_date_time: Option<DateTime>,
    pub end_date_time: Option<DateTime>,
    pub already_booked: bool,
    pub bookable: bool,
    pub earliest_booking_date_time: Option<DateTime>,
}

impl JohnReedSlot {
    /// The occurrence can be booked by a member for whom the clock reads `now`
    /// seconds since the Unix epoch: the member has not booked it yet, the studio
    /// offers it for booking and says from when, and it has not begun before `now`.
    ///
    /// Of the two instants the occurrence carries, its start decides whether it is
    /// past. The instant from which the studio takes bookings only has to be
    /// there: one that has already passed means that the booking can be made at
    /// once.
    pub open spec fn spec_is_bookable_at(&self, now: i64) -> bool {
        &&& !self.already_booked
        &&& self.bookable
        &&& self.earliest_booking_date_time is Some
        &&& self.start_date_time matches Some(start)
        &&& start@.secs >= now
    }

    /// Whether the occurrence can be booked when the clock reads `now` seconds since
    /// the Unix epoch.
    pub fn is_bookable_at(&self, now: i64) -> (bookable: bool)
        ensures
            bookable == self.spec_is_bookable_at(now),
    {
        if self.already_booked {
            return false;
        }
        if !self.bookable {
            return false;
        }
        if self.earliest_booking_date_time.is_none() {
            return false;
        }
        match &self.start_date_time {
            Some(start) => start.timestamp() >= now,
            None => false,
        }
    }

    /// Whether the occurrence can be booked now, by the system clock.
    ///
    /// The answer is the one that [`JohnReedSlot::is_bookable_at`] gives for the
    /// clock's reading, which is read as [`DateTime::now`] reads it and is some
    /// timestamp within the range of instants. Whatever the clock reads, an
    /// occurrence that is already booked, is not offered for booking, or lacks its
    /// start or the instant from which bookings are taken, cannot be booked.
    pub fn is_bookable(&self) -> (bookable: bool)
        ensures
            exists|now: i64|
                MIN_TIMESTAMP <= now <= MAX_TIMESTAMP && bookable == #[trigger] self.spec_is_bookable_at(
                    now,
                ),
            bookable ==> !self.already_booked && self.bookable
                && self.earliest_booking_date_time is Some && self.start_date_time is Some,
    {
        let now = current_timestamp();
        self.is_bookable_at(now)
    }
}

} // verus!
