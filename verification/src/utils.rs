//! Conversion between the studio's timestamps and the monotonic clock on which
//! deferred bookings are timed.
//!
//! Both directions take the two clock readings they need as arguments, a wall-clock
//! reading and a monotonic one taken at the same moment, so that they are
//! functions of their arguments.

use crate::datetime::DateTime;
use crate::datetime::DateTimeView;
use crate::datetime::MAX_TIMESTAMP;
use crate::datetime::MIN_TIMESTAMP;
use crate::datetime::NANOS_PER_SECOND;
use vstd::prelude::*;

verus! {

/// A reading of the monotonic clock: the time that has passed since the clock's
/// origin, in whole seconds and the nanoseconds past them. Its view is that time
/// in nanoseconds.
#[derive(Clone, Copy, Debug)]
pub struct Instant {
    secs: u64,
    nanos: u32,
}

impl View for Instant {
    type V = nat;

    closed spec fn view(&self) -> nat {
        (self.secs * NANOS_PER_SECOND + self.nanos) as nat
    }
}

impl Instant {
    #[verifier::type_invariant]
    spec fn inv(self) -> bool {
        self.nanos < NANOS_PER_SECOND
    }

    /// The latest reading that can be held, in nanoseconds.
    pub open spec fn spec_max() -> nat {
        (u64::MAX * NANOS_PER_SECOND + (NANOS_PER_SECOND - 1)) as nat
    }

    /// The reading `secs` seconds and `nanos` nanoseconds after the clock's origin,
    /// if `nanos` is less than a second.
    pub fn new(secs: u64, nanos: u32) -> (made: Option<Instant>)
        ensures
            made is Some <==> nanos < NANOS_PER_SECOND,
            made matches Some(instant) ==> instant@ == secs * NANOS_PER_SECOND + nanos,
    {
        if nanos < NANOS_PER_SECOND {
            Some(Instant { secs, nanos })
        } else {
            None
        }
    }

    /// Whole seconds since the clock's origin.
    pub fn as_secs(&self) -> (secs: u64)
        ensures
            secs == self@ / (NANOS_PER_SECOND as nat),
            self@ <= Instant::spec_max(),
    {
        proof {
            use_type_invariant(self);
        }
        self.secs
    }

    /// Nanoseconds past the whole seconds.
    pub fn subsec_nanos(&self) -> (nanos: u32)
        ensures
            nanos == self@ % (NANOS_PER_SECOND as nat),
    {
        proof {
            use_type_invariant(self);
        }
        self.nanos
    }

    /// The time from `earlier` to `self` in nanoseconds, zero if `self` is the
    /// earlier of the two.
    pub open spec fn spec_saturating_nanos_since(self, earlier: Instant) -> nat {
        if self@ > earlier@ {
            (self@ - earlier@) as nat
        } else {
            0
        }
    }
}

/// How long to wait at the wall-clock reading `now` until `target` is reached, in
/// nanoseconds: nothing, if `target` is not in the future.
pub open spec fn wait_nanos(target: DateTimeView, now: DateTimeView) -> nat {
    if target.nanos_since_epoch() > now.nanos_since_epoch() {
        (target.nanos_since_epoch() - now.nanos_since_epoch()) as nat
    } else {
        0
    }
}

/// The reading that the monotonic clock will show when the wall clock reaches
/// `dt`, given that the wall clock reads `wall_now` at the moment the monotonic
/// clock reads `mono_now`.
///
/// A `dt` that is not in the future gives `mono_now` itself: the wait is never
/// negative. The offset of `dt` is honoured in that only the instant counts, not
/// the offset it is written in. The result is `None` only where the clock cannot
/// hold a reading that late.
pub fn datetime_to_instant(dt: &DateTime, wall_now: &DateTime, mono_now: &Instant) -> (deadline:
    Option<Instant>)
    ensures
        deadline is Some <==> mono_now@ + wait_nanos(dt@, wall_now@) <= Instant::spec_max(),
        deadline matches Some(instant) ==> instant@ == mono_now@ + wait_nanos(dt@, wall_now@),
        dt@.nanos_since_epoch() <= wall_now@.nanos_since_epoch() ==> deadline == Some(*mono_now),
{
    proof {
        use_type_invariant(mono_now);
    }
    let billion: i128 = 1_000_000_000;
    let seconds: i128 = dt.timestamp() as i128 - wall_now.timestamp() as i128;
    let ahead: i128 = seconds * billion + (dt.timestamp_subsec_nanos() as i128
        - wall_now.timestamp_subsec_nanos() as i128);
    if ahead <= 0 {
        return Some(*mono_now);
    }
    let wait_secs: u64 = (ahead / billion) as u64;
    let wait_frac: u32 = (ahead % billion) as u32;
    let mut nanos: u32 = mono_now.nanos + wait_frac;
    let mut carry: u64 = 0;
    if nanos >= NANOS_PER_SECOND {
        nanos = nanos - NANOS_PER_SECOND;
        carry = 1;
    }
    // `wait_secs + carry` is far below the range of `u64`; the sum with the clock's
    // own seconds need not be.
    let step: u64 = wait_secs + carry;
    match mono_now.secs.checked_add(step) {
        Some(secs) => Some(Instant { secs, nanos }),
        None => None,
    }
}

/// The wall-clock time, in UTC, at which the monotonic clock will show `instant`,
/// given that the wall clock reads `wall_now` at the moment the monotonic clock
/// reads `mono_now`.
///
/// An `instant` that is not ahead of `mono_now` gives the instant of `wall_now`.
/// The result is `None` only where the time lies past the last representable
/// second.
pub fn instant_to_datetime(instant: &Instant, wall_now: &DateTime, mono_now: &Instant) -> (dt:
    Option<DateTime>)
    ensures
        dt is Some <==> wall_now@.nanos_since_epoch() + instant.spec_saturating_nanos_since(
            *mono_now,
        ) < (MAX_TIMESTAMP + 1) * NANOS_PER_SECOND,
        dt matches Some(t) ==> {
            &&& t@.offset == 0
            &&& t@.nanos < NANOS_PER_SECOND
            &&& t@.nanos_since_epoch() == wall_now@.nanos_since_epoch()
                + instant.spec_saturating_nanos_since(*mono_now)
        },
{
    proof {
        use_type_invariant(instant);
        use_type_invariant(mono_now);
    }
    let billion: i128 = 1_000_000_000;
    let ahead: i128 = if instant.secs > mono_now.secs || (instant.secs == mono_now.secs
        && instant.nanos > mono_now.nanos) {
        (instant.secs as i128 - mono_now.secs as i128) * billion + (instant.nanos as i128
            - mono_now.nanos as i128)
    } else {
        0
    };
    let total: i128 = wall_now.timestamp() as i128 * billion
        + wall_now.timestamp_subsec_nanos() as i128 + ahead;
    let limit: i128 = (MAX_TIMESTAMP as i128 + 1) * billion;
    if total >= limit {
        return None;
    }
    let shifted: i128 = total - (MIN_TIMESTAMP as i128) * billion;
    let secs: i64 = ((shifted / billion) + MIN_TIMESTAMP as i128) as i64;
    let nanos: u32 = (shifted % billion) as u32;
    DateTime::new(secs, nanos, 0)
}

/// A timestamp that is not in the future is not waited for, and no wait is ever
/// negative: the deadline of a timestamp is the clock's present reading or a later
/// one.
pub proof fn past_timestamp_needs_no_wait(
    dt: DateTime,
    wall_now: DateTime,
    mono_now: Instant,
    deadline: Instant,
)
    requires
        deadline@ == mono_now@ + wait_nanos(dt@, wall_now@),
    ensures
        deadline@ >= mono_now@,
        deadline.spec_saturating_nanos_since(mono_now) == wait_nanos(dt@, wall_now@),
        dt@.nanos_since_epoch() <= wall_now@.nanos_since_epoch() ==> deadline@ == mono_now@,
{
}

} // verus!
