//! The greeting program's helpers: a GCD routine and a person with an age.

use vstd::prelude::*;
use crate::math::{gcd_spec, lemma_gcd_commutative};
use chrono::DateTime;
use std::time::{SystemTime, UNIX_EPOCH};

verus! {

/// Greatest common divisor of two non-zero numbers, by repeated
/// remainders with the larger value kept in `m`.
pub fn gcd(n: u64, m: u64) -> (r: u64)
    requires
        n != 0 && m != 0,
    ensures
        r == gcd_spec(n as nat, m as nat),
        r != 0,
{
    let mut n = n;
    let mut m = m;
    let ghost target = gcd_spec(n as nat, m as nat);
    while n != 0
        invariant
            m != 0,
            gcd_spec(n as nat, m as nat) == target,
        decreases n,
    {
        if m < n {
            proof {
                lemma_gcd_commutative(n as nat, m as nat);
            }
            let t = m;
            m = n;
            n = t;
        }
        proof {
            lemma_gcd_commutative(n as nat, m as nat);
            lemma_gcd_commutative((m % n) as nat, n as nat);
        }
        let t = m % n;
        m = n;
        n = t;
    }
    proof {
        lemma_gcd_commutative(n as nat, m as nat);
    }
    m
}

/// The quotient of `a` by `b`, rounded toward zero, as Rust's integer
/// division computes it.
pub open spec fn div_toward_zero(a: int, b: int) -> int {
    if a >= 0 {
        a / b
    } else {
        -((-a) / b)
    }
}

/// The first second that `chrono` represents: 00:00:00 UTC on 1 January of
/// year -262143 (its `MIN_YEAR`), in seconds since the Unix epoch.
pub open spec fn min_timestamp() -> int {
    -8334601228800
}

/// The last second that `chrono` represents: 23:59:59 UTC on 31 December of
/// year 262142 (its `MAX_YEAR`), in seconds since the Unix epoch.
pub open spec fn max_timestamp() -> int {
    8210266876799
}

/// Whether `chrono` represents the time `t` (seconds since the Unix epoch).
pub open spec fn in_calendar_range(t: i64) -> bool {
    min_timestamp() <= t <= max_timestamp()
}

/// A reading of the system clock, as std represents it.
#[verifier::external_type_specification]
#[verifier::external_body]
pub struct ExSystemTime(SystemTime);

/// Calls `SystemTime::now`, which reads the system clock. Nothing is
/// claimed of the time it returns.
#[verifier::external_body]
fn system_now() -> (r: SystemTime) {
    SystemTime::now()
}

/// Calls `SystemTime::duration_since(UNIX_EPOCH)` and gives its whole
/// seconds; `None` when the time lies before the Unix epoch (the call's
/// error). A `SystemTime` is opaque here, so nothing is claimed of the
/// count.
#[verifier::external_body]
fn whole_seconds_since_epoch(t: &SystemTime) -> (r: Option<u64>) {
    match t.duration_since(UNIX_EPOCH) {
        Ok(d) => Some(d.as_secs()),
        Err(_) => None,
    }
}

/// Calls `DateTime::from_timestamp` on both times (whole seconds since the
/// Unix epoch, in UTC), then `signed_duration_since` and
/// `TimeDelta::num_days`. For whole seconds the difference is exactly
/// `later - earlier` seconds, and the whole days of it are that count
/// divided by 86400, rounded toward zero. `from_timestamp` gives `None`
/// exactly for the times outside the years `MIN_YEAR..=MAX_YEAR`, and then
/// so does this.
#[verifier::external_body]
fn whole_days_between(later: i64, earlier: i64) -> (r: Option<i64>)
    ensures
        r is Some <==> (in_calendar_range(later) && in_calendar_range(earlier)),
        r matches Some(d) ==> d == div_toward_zero(later - earlier, 86400),
{
    match (DateTime::from_timestamp(later, 0), DateTime::from_timestamp(earlier, 0)) {
        (Some(a), Some(b)) => Some(a.signed_duration_since(b).num_days()),
        _ => None,
    }
}

/// The age in years for `days` whole days of life: the day count is taken
/// as an unsigned 32-bit number (as a cast does, wrapping a negative count)
/// and divided by 365.
pub open spec fn age_in_years(days: i64) -> u32 {
    ((days as u32) / 365) as u32
}

/// The age in years for a count of whole days of life.
pub fn age_from_days(days: i64) -> (r: u32)
    ensures
        r == age_in_years(days),
{
    (days as u32) / 365
}

/// The age in years at time `now` of someone born at `birth` (both in
/// whole seconds since the Unix epoch).
pub open spec fn age_at_spec(now: i64, birth: i64) -> u32 {
    age_in_years(div_toward_zero(now - birth, 86400) as i64)
}

/// A person with a name and a birth date.
pub struct Person {
    pub name: String,
    /// Birth date and time, in whole seconds since the Unix epoch (UTC).
    birth_date: i64,
}

impl Person {
    /// The person's name.
    pub closed spec fn name_view(&self) -> Seq<char> {
        self.name@
    }

    /// The person's birth time, in seconds since the Unix epoch.
    pub closed spec fn birth_view(&self) -> i64 {
        self.birth_date
    }

    /// A person with a copy of `name`, born at `birth_date` (seconds since
    /// the Unix epoch, UTC).
    pub fn new(name: &String, birth_date: i64) -> (r: Person)
        ensures
            r.name_view() == name@,
            r.birth_view() == birth_date,
    {
        Person { name: name.clone(), birth_date }
    }

    /// The person's age in whole years at time `now` (seconds since the
    /// Unix epoch); `None` when a time lies outside the calendar's range.
    pub fn age_at(&self, now: i64) -> (r: Option<u32>)
        ensures
            r is Some <==> (in_calendar_range(now) && in_calendar_range(self.birth_view())),
            r matches Some(a) ==> a == age_at_spec(now, self.birth_view()),
    {
        match whole_days_between(now, self.birth_date) {
            Some(days) => Some(age_from_days(days)),
            None => None,
        }
    }

    /// The person's age in whole years by a clock that read `clock` whole
    /// seconds after the Unix epoch (`None`: the clock read before it);
    /// `None` when there is no reading, or a time lies outside the
    /// calendar's range.
    pub fn age_from_clock(&self, clock: Option<u64>) -> (r: Option<u32>)
        ensures
            r is Some <==> (clock matches Some(s) && s <= max_timestamp() && in_calendar_range(
                self.birth_view(),
            )),
            r matches Some(a) ==> (clock matches Some(s) && a == age_at_spec(
                s as i64,
                self.birth_view(),
            )),
    {
        match clock {
            None => None,
            Some(s) => {
                if s <= 8210266876799 {
                    self.age_at(s as i64)
                } else {
                    None
                }
            },
        }
    }

    /// The person's age in whole years today, by the system clock; `None`
    /// when the clock reads before the Unix epoch or beyond the calendar's
    /// range, or the birth date lies outside that range.
    pub fn age(&self) -> (r: Option<u32>)
        ensures
            r is Some ==> in_calendar_range(self.birth_view()),
            r matches Some(a) ==> exists|now: i64|
                0 <= now && in_calendar_range(now) && a == age_at_spec(now, self.birth_view()),
    {
        let now = system_now();
        let clock = whole_seconds_since_epoch(&now);
        let r = self.age_from_clock(clock);
        proof {
            if let Some(s) = clock {
                if r is Some {
                    assert(0 <= s as i64 && in_calendar_range(s as i64));
                }
            }
        }
        r
    }
}

} // verus!
