//! The time of day, real and made up.

use vstd::prelude::*;

verus! {

/// The standard library's point in time.
#[verifier::external_type_specification]
#[verifier::external_body]
pub struct ExSystemTime(std::time::SystemTime);

/// `SystemTime::now`: some point in time.
pub assume_specification[ std::time::SystemTime::now ]() -> (t: std::time::SystemTime);

/// `SystemTime::duration_since` the Unix epoch, as a number of nanoseconds;
/// nothing where the point in time is before the epoch. What the number is is
/// left open, since it rests on the machine's clock.
#[verifier::external_body]
fn nanos_since_epoch(t: std::time::SystemTime) -> (r: Option<u128>)
{
    t.duration_since(std::time::UNIX_EPOCH).ok().map(|d| d.as_nanos())
}

/// Something that tells the time in seconds since the Unix epoch.
pub trait Clock {
    fn now_unix_secs(&self) -> (r: i64);
}

/// The clock of the machine.
#[derive(Debug, Clone, Copy)]
pub struct SystemClock;

impl Default for SystemClock {
    fn default() -> (r: Self)
        ensures
            r == SystemClock,
    {
        SystemClock
    }
}

/// The seconds in a time in nanoseconds: zero where there is none.
pub fn clock_seconds(nanos: Option<u128>) -> (r: i64)
    ensures
        r == (match nanos {
            Some(n) => (n / 1_000_000_000) as i64,
            None => 0i64,
        }),
{
    match nanos {
        Some(n) => (n / 1_000_000_000) as i64,
        None => 0,
    }
}

/// A time in nanoseconds as a stamp: one where there is none, and the largest
/// there is where it does not fit.
pub fn clock_stamp(nanos: Option<u128>) -> (r: i64)
    ensures
        r == (match nanos {
            Some(n) => if n > i64::MAX {
                i64::MAX
            } else {
                n as i64
            },
            None => 1i64,
        }),
{
    match nanos {
        Some(n) => if n > i64::MAX as u128 {
            i64::MAX
        } else {
            n as i64
        },
        None => 1,
    }
}

/// The stamp of the present. It is never negative.
pub fn system_stamp() -> (r: i64)
    ensures
        r >= 0,
{
    clock_stamp(nanos_since_epoch(std::time::SystemTime::now()))
}

/// A time in nanoseconds as seconds and the nanoseconds that are left: zero
/// where there is none.
pub fn clock_timestamp(nanos: Option<u128>) -> (r: (i64, i32))
    ensures
        r == (match nanos {
            Some(n) => ((n / 1_000_000_000) as i64, (n % 1_000_000_000) as i32),
            None => (0i64, 0i32),
        }),
{
    match nanos {
        Some(n) => ((n / 1_000_000_000) as i64, (n % 1_000_000_000) as i32),
        None => (0, 0),
    }
}

/// The present as seconds and nanoseconds.
pub fn system_timestamp() -> (r: (i64, i32))
    ensures
        0 <= r.1 < 1_000_000_000,
{
    clock_timestamp(nanos_since_epoch(std::time::SystemTime::now()))
}

impl Clock for SystemClock {
    fn now_unix_secs(&self) -> (r: i64) {
        clock_seconds(nanos_since_epoch(std::time::SystemTime::now()))
    }
}

/// A clock that is set by hand.
#[derive(Debug, Clone, Copy)]
pub struct FakeClock {
    pub now: i64,
}

impl FakeClock {
    pub fn new(start: i64) -> (c: Self)
        ensures
            c.now == start,
    {
        FakeClock { now: start }
    }

    /// Sets the time.
    pub fn advance_to(&mut self, t: i64)
        ensures
            final(self).now == t,
    {
        self.now = t;
    }

    /// Moves the time by one second and tells it.
    pub fn tick(&mut self) -> (r: i64)
        requires
            old(self).now < i64::MAX,
        ensures
            r == old(self).now + 1,
            final(self).now == r,
    {
        self.now = self.now + 1;
        self.now
    }
}

impl Clock for FakeClock {
    fn now_unix_secs(&self) -> (r: i64)
        ensures
            r == self.now,
    {
        self.now
    }
}

} // verus!
