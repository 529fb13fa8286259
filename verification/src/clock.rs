//! Wall-clock readings as the generators consume them.

use vstd::prelude::*;

verus! {

/// Nanoseconds in one second.
pub const NANOS_PER_SECOND: u32 = 1_000_000_000;

/// One reading of the wall clock: whole seconds since the Unix epoch and the
/// nanoseconds into the current second, which are always below
/// [`NANOS_PER_SECOND`].
#[derive(Clone, Copy, Debug)]
pub struct ClockReading {
    seconds: u64,
    subsec_nanos: u32,
}

impl ClockReading {
    #[verifier::type_invariant]
    spec fn subsec_in_range(self) -> bool {
        self.subsec_nanos < NANOS_PER_SECOND
    }

    /// Whole seconds since the Unix epoch.
    pub closed spec fn spec_seconds(&self) -> u64 {
        self.seconds
    }

    /// Nanoseconds into the current second.
    pub closed spec fn spec_subsec_nanos(&self) -> u32 {
        self.subsec_nanos
    }

    /// Nanoseconds from this reading to the next second boundary.
    pub open spec fn spec_nanos_to_next_second(&self) -> int {
        NANOS_PER_SECOND - self.spec_subsec_nanos()
    }

    /// Builds a reading, or `None` when `subsec_nanos` is not a fraction of a
    /// second.
    pub fn new(seconds: u64, subsec_nanos: u32) -> (reading: Option<ClockReading>)
        ensures
            reading is Some <==> subsec_nanos < NANOS_PER_SECOND,
            reading matches Some(r) ==> r.spec_seconds() == seconds && r.spec_subsec_nanos()
                == subsec_nanos,
    {
        if subsec_nanos < NANOS_PER_SECOND {
            Some(ClockReading { seconds, subsec_nanos })
        } else {
            None
        }
    }

    /// Whole seconds since the Unix epoch.
    #[verifier::when_used_as_spec(spec_seconds)]
    pub fn seconds(&self) -> (seconds: u64)
        ensures
            seconds == self.spec_seconds(),
    {
        self.seconds
    }

    /// Nanoseconds into the current second.
    #[verifier::when_used_as_spec(spec_subsec_nanos)]
    pub fn subsec_nanos(&self) -> (nanos: u32)
        ensures
            nanos == self.spec_subsec_nanos(),
            nanos < NANOS_PER_SECOND,
    {
        proof {
            use_type_invariant(self);
        }
        self.subsec_nanos
    }

    /// Nanoseconds from this reading to the next second boundary: between one
    /// and a full second.
    pub fn nanos_to_next_second(&self) -> (nanos: u64)
        ensures
            nanos == self.spec_nanos_to_next_second(),
            1 <= nanos <= NANOS_PER_SECOND,
    {
        proof {
            use_type_invariant(self);
        }
        (NANOS_PER_SECOND - self.subsec_nanos) as u64
    }
}

/// Why the clock could not be read.
#[derive(Clone, Copy, Debug, PartialEq, Eq, Structural)]
pub enum ClockError {
    /// The system clock is set to a time before the Unix epoch.
    BeforeEpoch,
}

/// `std::time::SystemTime`, a point in time as the system clock measures it.
/// Its inside is hidden from the proofs.
#[verifier::external_type_specification]
#[verifier::external_body]
pub struct ExSystemTime(std::time::SystemTime);

/// The time from the Unix epoch to `time` as
/// `std::time::SystemTime::duration_since` gives it, `None` where it fails.
pub uninterp spec fn elapsed_since_epoch(time: std::time::SystemTime) -> Option<
    std::time::Duration,
>;

/// The whole seconds of a duration as `std::time::Duration::as_secs` gives
/// them.
pub uninterp spec fn whole_seconds_of(elapsed: std::time::Duration) -> u64;

/// The nanoseconds beyond the whole seconds of a duration as
/// `std::time::Duration::subsec_nanos` gives them.
pub uninterp spec fn fractional_nanos_of(elapsed: std::time::Duration) -> u32;

/// `std::time::SystemTime::now`: the system clock's current time. Nothing is
/// claimed of it.
#[verifier::external_body]
fn system_now() -> std::time::SystemTime {
    std::time::SystemTime::now()
}

/// `std::time::SystemTime::duration_since` with `std::time::UNIX_EPOCH` as the
/// earlier time. The method returns an error exactly when `time` lies before
/// the epoch; that error becomes `None`. The contract only names the result.
#[verifier::external_body]
fn since_unix_epoch(time: &std::time::SystemTime) -> (elapsed: Option<std::time::Duration>)
    ensures
        elapsed == elapsed_since_epoch(*time),
{
    match time.duration_since(std::time::UNIX_EPOCH) {
        Ok(elapsed) => Some(elapsed),
        Err(_) => None,
    }
}

/// `std::time::Duration::as_secs`. The contract only names the result.
#[verifier::external_body]
fn whole_seconds(elapsed: &std::time::Duration) -> (seconds: u64)
    ensures
        seconds == whole_seconds_of(*elapsed),
{
    elapsed.as_secs()
}

/// `std::time::Duration::subsec_nanos`. The contract names the result and
/// repeats what std documents of it: it is less than one billion.
#[verifier::external_body]
fn fractional_nanos(elapsed: &std::time::Duration) -> (nanos: u32)
    ensures
        nanos == fractional_nanos_of(*elapsed),
        nanos < NANOS_PER_SECOND,
{
    elapsed.subsec_nanos()
}

/// `reading` is what the clock shows at `time`: the whole seconds and the
/// nanoseconds beyond them that have passed since the Unix epoch.
pub open spec fn reads_as(time: std::time::SystemTime, reading: ClockReading) -> bool {
    elapsed_since_epoch(time) matches Some(elapsed) && reading.seconds() == whole_seconds_of(
        elapsed,
    ) && reading.subsec_nanos() == fractional_nanos_of(elapsed) && reading.subsec_nanos()
        < NANOS_PER_SECOND
}

/// Converts a time of the system clock into a reading.
///
/// Fails exactly when `time` lies before the Unix epoch.
pub fn reading_at(time: &std::time::SystemTime) -> (outcome: Result<ClockReading, ClockError>)
    ensures
        outcome is Err <==> elapsed_since_epoch(*time) is None,
        outcome matches Ok(reading) ==> reads_as(*time, reading),
        outcome matches Err(fault) ==> fault == ClockError::BeforeEpoch,
{
    match since_unix_epoch(time) {
        Some(elapsed) => Ok(
            ClockReading {
                seconds: whole_seconds(&elapsed),
                subsec_nanos: fractional_nanos(&elapsed),
            },
        ),
        None => Err(ClockError::BeforeEpoch),
    }
}

/// Reads the wall clock as time since the Unix epoch.
///
/// The time itself cannot be known in advance; what comes back is the
/// conversion of some time of the system clock, and an error only if that
/// time lies before the epoch.
pub fn now() -> (outcome: Result<ClockReading, ClockError>)
    ensures
        outcome matches Ok(reading) ==> exists|time: std::time::SystemTime|
            reads_as(time, reading),
        outcome matches Err(fault) ==> fault == ClockError::BeforeEpoch && exists|
            time: std::time::SystemTime,
        | elapsed_since_epoch(time) is None,
{
    let time = system_now();
    let outcome = reading_at(&time);
    proof {
        match outcome {
            Ok(reading) => {
                assert(reads_as(time, reading));
            },
            Err(_) => {
                assert(elapsed_since_epoch(time) is None);
            },
        }
    }
    outcome
}

/// The current Unix timestamp in whole seconds, read without waiting for
/// anything.
pub fn timestamp_noblock() -> (outcome: Result<u64, ClockError>)
    ensures
        outcome matches Ok(seconds) ==> exists|time: std::time::SystemTime, reading: ClockReading|
            reads_as(time, reading) && seconds == reading.seconds(),
        outcome matches Err(fault) ==> fault == ClockError::BeforeEpoch && exists|
            time: std::time::SystemTime,
        | elapsed_since_epoch(time) is None,
{
    match now() {
        Ok(reading) => Ok(reading.seconds()),
        Err(fault) => Err(fault),
    }
}

} // verus!
