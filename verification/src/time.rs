//! Points in time and spans between them, and the clock.

use vstd::prelude::*;

verus! {

/// No reading of the clock is further from the UNIX epoch than this, in
/// nanoseconds: its seconds are a `u64`, and it has less than a second more.
pub const MAX_CLOCK_NANOS: i128 = 18_446_744_073_709_551_615_999_999_999;

/// The last point in time that a system time can hold, in nanoseconds since the
/// UNIX epoch. It counts its seconds in an `i64`, as that of the standard library
/// does on 64-bit Unix systems.
pub const MAX_SYSTEM_NANOS: i128 = 9_223_372_036_854_775_807_999_999_999;

/// The first such point in time, in nanoseconds since the UNIX epoch.
pub const MIN_SYSTEM_NANOS: i128 = -9_223_372_036_854_775_808_000_000_000;

/// A point in time.
#[derive(Clone, Copy, Debug, PartialEq, Eq, PartialOrd, Ord, Hash, Structural)]
pub struct SystemTime {
    /// Nanoseconds since the UNIX epoch, negative for a time before it
    pub unix_nanos: i128,
}

/// A span of time.
#[derive(Clone, Copy, Debug, PartialEq, Eq, PartialOrd, Ord, Hash, Structural)]
pub struct Duration {
    /// Nanoseconds
    pub nanos: u128,
}

/// A reading of the clock: how far the UNIX epoch is away, in seconds and
/// nanoseconds, and on which side.
#[derive(Clone, Copy, Debug, PartialEq, Eq, Hash, Structural)]
pub enum ClockReading {
    AfterEpoch { secs: u64, subsec_nanos: u32 },
    BeforeEpoch { secs: u64, subsec_nanos: u32 },
}

impl View for SystemTime {
    type V = int;

    open spec fn view(&self) -> int {
        self.unix_nanos as int
    }
}

impl View for Duration {
    type V = nat;

    open spec fn view(&self) -> nat {
        self.nanos as nat
    }
}

impl ClockReading {
    /// The nanoseconds of a reading make up less than a second.
    pub open spec fn wf(self) -> bool {
        match self {
            ClockReading::AfterEpoch { secs: _, subsec_nanos } => subsec_nanos < 1_000_000_000,
            ClockReading::BeforeEpoch { secs: _, subsec_nanos } => subsec_nanos < 1_000_000_000,
        }
    }
}

impl View for ClockReading {
    type V = int;

    /// Nanoseconds since the UNIX epoch.
    open spec fn view(&self) -> int {
        match *self {
            ClockReading::AfterEpoch { secs, subsec_nanos } => secs * 1_000_000_000 + subsec_nanos,
            ClockReading::BeforeEpoch { secs, subsec_nanos } => -(secs * 1_000_000_000
                + subsec_nanos),
        }
    }
}

/// A time that the clock can show.
pub open spec fn on_clock(time: int) -> bool {
    -MAX_CLOCK_NANOS <= time <= MAX_CLOCK_NANOS
}

/// A time that a system time can hold.
pub open spec fn representable(time: int) -> bool {
    MIN_SYSTEM_NANOS <= time <= MAX_SYSTEM_NANOS
}

/// What is left at `now` until `deadline`: nothing once it has come.
pub open spec fn remaining(deadline: int, now: int) -> nat {
    if deadline > now {
        (deadline - now) as nat
    } else {
        0
    }
}

/// Splits nanoseconds into seconds and what is left, unless there are more
/// seconds than a `u64` can count.
fn split_nanos(nanos: u128) -> (parts: Option<(u64, u32)>)
    ensures
        match parts {
            Some((secs, subsec_nanos)) => {
                &&& subsec_nanos < 1_000_000_000
                &&& secs * 1_000_000_000 + subsec_nanos == nanos
            },
            None => nanos > MAX_CLOCK_NANOS,
        },
{
    let secs: u128 = nanos / 1_000_000_000;
    if secs > u64::MAX as u128 {
        None
    } else {
        Some((secs as u64, (nanos % 1_000_000_000) as u32))
    }
}

impl Duration {
    /// The span of as many seconds and nanoseconds.
    pub fn new(secs: u64, nanos: u32) -> (span: Duration)
        ensures
            span@ == secs * 1_000_000_000 + nanos,
            span.nanos == secs * 1_000_000_000 + nanos,
    {
        Duration { nanos: secs as u128 * 1_000_000_000 + nanos as u128 }
    }

    /// The seconds of the span and the nanoseconds that are left, unless there
    /// are more seconds than a `u64` can count.
    pub fn to_parts(&self) -> (parts: Option<(u64, u32)>)
        ensures
            match parts {
                Some((secs, subsec_nanos)) => {
                    &&& subsec_nanos < 1_000_000_000
                    &&& secs * 1_000_000_000 + subsec_nanos == self@
                },
                None => self@ > MAX_CLOCK_NANOS,
            },
            parts is Some <==> self.nanos / 1_000_000_000 <= u64::MAX,
            parts matches Some((secs, subsec_nanos)) ==> secs * 1_000_000_000 + subsec_nanos
                == self.nanos && subsec_nanos < 1_000_000_000,
    {
        split_nanos(self.nanos)
    }
}

impl SystemTime {
    /// The reading of a clock that shows this point in time, if it is one that
    /// the clock can show.
    pub fn to_clock(&self) -> (reading: Option<ClockReading>)
        ensures
            match reading {
                Some(reading) => reading.wf() && reading@ == self@,
                None => !on_clock(self@),
            },
            match reading {
                Some(ClockReading::AfterEpoch { secs, subsec_nanos }) => subsec_nanos
                    < 1_000_000_000 && self.unix_nanos == secs * 1_000_000_000 + subsec_nanos,
                Some(ClockReading::BeforeEpoch { secs, subsec_nanos }) => subsec_nanos
                    < 1_000_000_000 && self.unix_nanos < 0 && self.unix_nanos == -(secs
                    * 1_000_000_000 + subsec_nanos),
                None => self.unix_nanos < -MAX_CLOCK_NANOS || self.unix_nanos > MAX_CLOCK_NANOS,
            },
    {
        if self.unix_nanos >= 0 {
            match split_nanos(self.unix_nanos as u128) {
                Some((secs, subsec_nanos)) => Some(
                    ClockReading::AfterEpoch { secs, subsec_nanos },
                ),
                None => None,
            }
        } else {
            let before: u128 = (-(self.unix_nanos + 1)) as u128;
            match split_nanos(before + 1) {
                Some((secs, subsec_nanos)) => Some(
                    ClockReading::BeforeEpoch { secs, subsec_nanos },
                ),
                None => None,
            }
        }
    }

    /// The point in time that a reading of the clock shows.
    pub fn from_clock(reading: ClockReading) -> (time: SystemTime)
        requires
            reading.wf(),
        ensures
            time@ == reading@,
            on_clock(time@),
            match reading {
                ClockReading::AfterEpoch { secs, subsec_nanos } => time.unix_nanos == secs
                    * 1_000_000_000 + subsec_nanos,
                ClockReading::BeforeEpoch { secs, subsec_nanos } => time.unix_nanos == -(secs
                    * 1_000_000_000 + subsec_nanos),
            },
    {
        match reading {
            ClockReading::AfterEpoch { secs, subsec_nanos } => SystemTime {
                unix_nanos: secs as i128 * 1_000_000_000 + subsec_nanos as i128,
            },
            ClockReading::BeforeEpoch { secs, subsec_nanos } => SystemTime {
                unix_nanos: -(secs as i128 * 1_000_000_000 + subsec_nanos as i128),
            },
        }
    }

    /// The span from `earlier` to this time, empty if `earlier` is the later
    /// one.
    pub fn saturating_duration_since(&self, earlier: SystemTime) -> (span: Duration)
        ensures
            span@ == remaining(self@, earlier@),
            earlier.unix_nanos <= self.unix_nanos ==> earlier.unix_nanos + span.nanos
                == self.unix_nanos,
            self.unix_nanos <= earlier.unix_nanos ==> span.nanos == 0,
    {
        if self.unix_nanos <= earlier.unix_nanos {
            Duration { nanos: 0 }
        } else if earlier.unix_nanos >= 0 || self.unix_nanos < 0 {
            Duration { nanos: (self.unix_nanos - earlier.unix_nanos) as u128 }
        } else {
            // Not even i128::MIN is an exception: one is added before the sign
            // changes, and to the span after it.
            let before: u128 = (-(earlier.unix_nanos + 1)) as u128;
            Duration { nanos: self.unix_nanos as u128 + before + 1 }
        }
    }

    /// The time that comes `span` after this one.
    pub fn after(&self, span: Duration) -> (time: SystemTime)
        requires
            self@ + span@ <= i128::MAX,
        ensures
            time@ == self@ + span@,
            time.unix_nanos == self.unix_nanos + span.nanos,
    {
        if span.nanos <= i128::MAX as u128 {
            SystemTime { unix_nanos: self.unix_nanos + span.nanos as i128 }
        } else {
            // The span alone would not fit: this time is before the epoch, by
            // no more than the span.
            let before: u128 = (-(self.unix_nanos + 1)) as u128;
            SystemTime { unix_nanos: (span.nanos - before - 1) as i128 }
        }
    }

    /// The time that comes `span` after this one, if a system time can hold it.
    pub fn checked_add(&self, span: Duration) -> (sum: Option<SystemTime>)
        ensures
            match sum {
                Some(time) => time@ == self@ + span@ && representable(time@),
                None => !representable(self@ + span@),
            },
            sum is Some <==> MIN_SYSTEM_NANOS <= self.unix_nanos + span.nanos <= MAX_SYSTEM_NANOS,
            sum matches Some(time) ==> time.unix_nanos == self.unix_nanos + span.nanos,
    {
        let last = SystemTime { unix_nanos: MAX_SYSTEM_NANOS };
        if self.unix_nanos > MAX_SYSTEM_NANOS {
            return None;
        }
        if span.nanos > last.saturating_duration_since(*self).nanos {
            return None;
        }
        let time = self.after(span);
        if time.unix_nanos < MIN_SYSTEM_NANOS {
            return None;
        }
        Some(time)
    }
}

/// `std::time::SystemTime::now`, with the reading put as the distance from the
/// UNIX epoch. Of what the clock shows nothing is claimed but that the
/// nanoseconds make up less than a second.
#[verifier::external_body]
pub(crate) fn read_clock() -> (reading: ClockReading)
    ensures
        reading.wf(),
{
    match std::time::SystemTime::now().duration_since(std::time::UNIX_EPOCH) {
        Ok(since) => ClockReading::AfterEpoch {
            secs: since.as_secs(),
            subsec_nanos: since.subsec_nanos(),
        },
        Err(until) => ClockReading::BeforeEpoch {
            secs: until.duration().as_secs(),
            subsec_nanos: until.duration().subsec_nanos(),
        },
    }
}

/// Reads a clock once and gives what it shows.
pub(crate) fn read_with<T, F: Fn() -> T>(clock: F) -> (shown: T)
    requires
        call_requires(clock, ()),
    ensures
        call_ensures(clock, (), shown),
{
    clock()
}

/// A reading of the system clock showed this time.
pub closed spec fn shown_by_clock(time: int) -> bool {
    exists|reading: ClockReading| #[trigger]
        call_ensures(read_clock, (), reading) && reading@ == time
}

/// The local system time: what the system clock shows.
pub fn now() -> (time: SystemTime)
    ensures
        shown_by_clock(time@),
        on_clock(time@),
{
    SystemTime::from_clock(read_with(read_clock))
}

/// What is left and the time that has come make up the deadline, until it has
/// come; after it nothing is left.
pub proof fn law_remaining(deadline: int, now: int)
    ensures
        now <= deadline ==> now + remaining(deadline, now) == deadline,
        deadline <= now ==> remaining(deadline, now) == 0,
{
}

/// A reading is as many seconds and nanoseconds away from the epoch as it says,
/// on the side that it says; the nanoseconds of a valid one make up less than a
/// second.
pub proof fn law_readings(secs: u64, subsec_nanos: u32)
    ensures
        (ClockReading::AfterEpoch { secs, subsec_nanos })@ == secs * 1_000_000_000 + subsec_nanos,
        (ClockReading::BeforeEpoch { secs, subsec_nanos })@ == -(secs * 1_000_000_000
            + subsec_nanos),
        (ClockReading::AfterEpoch { secs, subsec_nanos }).wf() <==> subsec_nanos < 1_000_000_000,
        (ClockReading::BeforeEpoch { secs, subsec_nanos }).wf() <==> subsec_nanos < 1_000_000_000,
{
}

/// A system time can hold a time if and only if an `i64` can hold its whole
/// seconds since the epoch, counted from below.
pub proof fn law_representable(time: int)
    ensures
        representable(time) <==> i64::MIN <= time / 1_000_000_000 <= i64::MAX,
{
}

/// The clock can show a time if and only if a `u64` can hold the whole seconds
/// that it is away from the epoch.
pub proof fn law_on_clock(time: int)
    ensures
        time >= 0 ==> (on_clock(time) <==> time / 1_000_000_000 <= u64::MAX),
        time <= 0 ==> (on_clock(time) <==> (-time) / 1_000_000_000 <= u64::MAX),
{
}

/// Times and spans count nanoseconds, the times from the epoch.
pub proof fn law_nanoseconds(time: SystemTime, span: Duration)
    ensures
        time@ == time.unix_nanos,
        span@ == span.nanos,
{
}

/// What the clock showed is what a reading of it says.
pub(crate) proof fn law_shown_by_clock(time: int)
    requires
        shown_by_clock(time),
    ensures
        exists|reading: ClockReading| #[trigger]
            call_ensures(read_clock, (), reading) && reading@ == time,
{
}

} // verus!
