//! The state machine behind sortable identifiers.
//!
//! A generator remembers the second it last worked in and how many serials it
//! has handed out in that second. Every clock reading either yields the next
//! identifier or, when all serials of the second are used up, a wait until the
//! next second boundary. The machine never sleeps and never reads a clock
//! itself: its caller does both and feeds it the readings.

use crate::clock::{ClockReading, NANOS_PER_SECOND};
use crate::layout::{
    compose_sortable, kept_timestamp, lemma_kept_timestamp, lemma_sortable_round_trip, serial_field,
    sortable_value, timestamp_field, TIMESTAMP_MASK,
};
use vstd::prelude::*;

verus! {

/// The cached timestamp and the serial counter of one generator.
///
/// `serial` is the next serial to hand out within `last_timestamp`. Every pair
/// of values is a valid state.
#[derive(Clone, Copy, Debug, PartialEq, Eq, Structural)]
pub struct SortableState {
    pub last_timestamp: u64,
    pub serial: u16,
}

/// What a generator answers to one clock reading.
#[derive(Clone, Copy, Debug, PartialEq, Eq, Structural)]
pub enum Step {
    /// The identifier that was issued.
    Issued(u64),
    /// Nothing was issued: the second has no serial left. The caller sleeps for
    /// this many nanoseconds, reads the clock again and retries.
    Wait(u64),
}

impl SortableState {
    /// All serials of `second` have been handed out.
    pub open spec fn exhausted_at(self, second: u64) -> bool {
        second == self.last_timestamp && self.serial == u16::MAX
    }

    /// The serial that an identifier issued in `second` carries: the counter
    /// within the cached second, zero in any other.
    pub open spec fn serial_at(self, second: u64) -> u16 {
        if second == self.last_timestamp {
            self.serial
        } else {
            0
        }
    }

    /// The state after the timestamp was reconciled with `second`: unchanged
    /// when the second is exhausted, else caching `second` with the counter
    /// reset if the second is new.
    pub open spec fn reconciled(self, second: u64) -> SortableState {
        if self.exhausted_at(second) {
            self
        } else {
            SortableState { last_timestamp: second, serial: self.serial_at(second) }
        }
    }

    /// The identifier issued in `second`, if any.
    pub open spec fn issued_at(self, second: u64) -> Option<u64> {
        if self.exhausted_at(second) {
            None
        } else {
            Some(sortable_value(second, self.serial_at(second)) as u64)
        }
    }

    /// The state after the generator has answered a reading of `second`.
    pub open spec fn advanced(self, second: u64) -> SortableState {
        if self.exhausted_at(second) {
            self
        } else {
            SortableState { last_timestamp: second, serial: (self.serial_at(second) + 1) as u16 }
        }
    }

    /// The answer to `reading`.
    pub open spec fn step_at(self, reading: ClockReading) -> Step {
        match self.issued_at(reading.seconds()) {
            Some(id) => Step::Issued(id),
            None => Step::Wait(reading.spec_nanos_to_next_second() as u64),
        }
    }

    /// A generator that has issued nothing yet, caching `timestamp`.
    pub fn new(timestamp: u64) -> (state: SortableState)
        ensures
            state.last_timestamp == timestamp,
            state.serial == 0,
    {
        SortableState { last_timestamp: timestamp, serial: 0 }
    }

    /// Reconciles the cached timestamp with the clock's current `second`.
    ///
    /// Returns `None`, leaving the state as it is, when `second` is the cached
    /// second and its last serial is gone. Otherwise caches `second`, resets
    /// the counter if `second` is not the cached one, and returns `second`; the
    /// counter is then below `u16::MAX`.
    pub fn reconcile(&mut self, second: u64) -> (timestamp: Option<u64>)
        ensures
            *final(self) == old(self).reconciled(second),
            timestamp == if old(self).exhausted_at(second) {
                None
            } else {
                Some(second)
            },
            timestamp is Some ==> final(self).serial < u16::MAX,
    {
        if second == self.last_timestamp {
            if self.serial == u16::MAX {
                return None;
            }
        } else {
            self.serial = 0;
        }
        self.last_timestamp = second;
        Some(second)
    }

    /// Returns the current serial and moves the counter on by one.
    pub fn next_serial(&mut self) -> (serial: u16)
        requires
            old(self).serial < u16::MAX,
        ensures
            serial == old(self).serial,
            final(self).serial == old(self).serial + 1,
            final(self).last_timestamp == old(self).last_timestamp,
    {
        let serial = self.serial;
        self.serial = serial + 1;
        serial
    }

    /// Answers one clock reading: issues the next identifier, or asks for a
    /// wait until the next second boundary when the second is exhausted.
    pub fn issue(&mut self, reading: ClockReading) -> (step: Step)
        ensures
            step == old(self).step_at(reading),
            *final(self) == old(self).advanced(reading.seconds()),
    {
        match self.reconcile(reading.seconds()) {
            Some(timestamp) => {
                let serial = self.next_serial();
                proof {
                    lemma_sortable_round_trip(timestamp, serial);
                }
                Step::Issued(compose_sortable(timestamp, serial))
            },
            None => Step::Wait(reading.nanos_to_next_second()),
        }
    }
}

/// The state of a generator that started in `start` and then answered one
/// reading in each of `seconds`, in order.
pub open spec fn state_after(start: SortableState, seconds: Seq<u64>) -> SortableState
    decreases seconds.len(),
{
    if seconds.len() == 0 {
        start
    } else {
        state_after(start, seconds.drop_last()).advanced(seconds.last())
    }
}

/// The identifiers that such a generator issued, in order. Readings that were
/// answered with a wait contribute nothing.
pub open spec fn issued_over(start: SortableState, seconds: Seq<u64>) -> Seq<u64>
    decreases seconds.len(),
{
    if seconds.len() == 0 {
        Seq::empty()
    } else {
        let earlier = seconds.drop_last();
        match state_after(start, earlier).issued_at(seconds.last()) {
            Some(id) => issued_over(start, earlier).push(id),
            None => issued_over(start, earlier),
        }
    }
}

/// The clock never went back between two readings.
pub open spec fn never_steps_back(seconds: Seq<u64>) -> bool {
    forall|i: int, j: int| 0 <= i <= j < seconds.len() ==> seconds[i] <= seconds[j]
}

/// Every reading fits under [`TIMESTAMP_MASK`], so masking loses nothing.
pub open spec fn within_mask(seconds: Seq<u64>) -> bool {
    forall|i: int| 0 <= i < seconds.len() ==> seconds[i] <= TIMESTAMP_MASK
}

proof fn lemma_run_bounded(start: SortableState, seconds: Seq<u64>)
    requires
        never_steps_back(seconds),
        within_mask(seconds),
    ensures
        seconds.len() > 0 ==> state_after(start, seconds).last_timestamp == seconds.last(),
        forall|k: int|
            0 <= k < issued_over(start, seconds).len() ==> #[trigger] issued_over(start, seconds)[k]
                < state_after(start, seconds).last_timestamp * 0x1_0000 + state_after(
                start,
                seconds,
            ).serial,
        forall|i: int, j: int|
            0 <= i < j < issued_over(start, seconds).len() ==> issued_over(start, seconds)[i]
                < issued_over(start, seconds)[j],
    decreases seconds.len(),
{
    if seconds.len() > 0 {
        let earlier = seconds.drop_last();
        let second = seconds.last();
        let mid = state_after(start, earlier);
        assert(never_steps_back(earlier)) by {
            assert forall|i: int, j: int| 0 <= i <= j < earlier.len() implies earlier[i]
                <= earlier[j] by {
                assert(earlier[i] == seconds[i] && earlier[j] == seconds[j]);
            }
        }
        assert(within_mask(earlier)) by {
            assert forall|i: int| 0 <= i < earlier.len() implies earlier[i] <= TIMESTAMP_MASK by {
                assert(earlier[i] == seconds[i]);
            }
        }
        lemma_run_bounded(start, earlier);
        lemma_kept_timestamp(second);
        lemma_sortable_round_trip(second, mid.serial_at(second));
        if earlier.len() > 0 {
            assert(earlier.last() == seconds[earlier.len() - 1]);
            assert(mid.last_timestamp <= second);
        }
        let before = issued_over(start, earlier);
        let ids = issued_over(start, seconds);
        let end = state_after(start, seconds);
        let bound = end.last_timestamp * 0x1_0000 + end.serial;
        if mid.exhausted_at(second) {
            assert(ids == before);
            assert(end == mid);
        } else {
            let id = sortable_value(second, mid.serial_at(second)) as u64;
            assert(ids == before.push(id));
            assert(id == second * 0x1_0000 + mid.serial_at(second));
            assert(bound == id + 1);
            assert forall|k: int| 0 <= k < before.len() implies before[k] < id by {
                assert(before[k] < mid.last_timestamp * 0x1_0000 + mid.serial);
            }
            assert forall|k: int| 0 <= k < ids.len() implies #[trigger] ids[k] < bound by {
                if k < before.len() {
                    assert(ids[k] == before[k]);
                }
            }
            assert forall|i: int, j: int| 0 <= i < j < ids.len() implies ids[i] < ids[j] by {
                assert(ids[i] == before[i]);
                if j < before.len() {
                    assert(ids[j] == before[j]);
                }
            }
        }
    }
}

/// Identifiers come out in strictly increasing order, and so no two of them
/// are equal: however many readings a generator answers, and whatever state
/// it started in, as long as the clock never steps back and stays within the
/// mask.
pub proof fn lemma_identifiers_increase(start: SortableState, seconds: Seq<u64>)
    requires
        never_steps_back(seconds),
        within_mask(seconds),
    ensures
        forall|i: int, j: int|
            0 <= i < j < issued_over(start, seconds).len() ==> issued_over(start, seconds)[i]
                < issued_over(start, seconds)[j],
        forall|i: int, j: int|
            0 <= i < issued_over(start, seconds).len() && 0 <= j < issued_over(
                start,
                seconds,
            ).len() && i != j ==> issued_over(start, seconds)[i] != issued_over(start, seconds)[j],
{
    lemma_run_bounded(start, seconds);
    let ids = issued_over(start, seconds);
    assert forall|i: int, j: int| 0 <= i < ids.len() && 0 <= j < ids.len() && i != j implies ids[i]
        != ids[j] by {
        if i < j {
            assert(ids[i] < ids[j]);
        } else {
            assert(ids[j] < ids[i]);
        }
    }
}

/// Of two identifiers from one generator, the earlier has the smaller
/// timestamp field or, within one timestamp, the smaller serial field.
pub proof fn lemma_fields_monotonic(start: SortableState, seconds: Seq<u64>, i: int, j: int)
    requires
        never_steps_back(seconds),
        within_mask(seconds),
        0 <= i < j < issued_over(start, seconds).len(),
    ensures
        timestamp_field(issued_over(start, seconds)[i]) <= timestamp_field(
            issued_over(start, seconds)[j],
        ),
        timestamp_field(issued_over(start, seconds)[i]) == timestamp_field(
            issued_over(start, seconds)[j],
        ) ==> serial_field(issued_over(start, seconds)[i]) < serial_field(
            issued_over(start, seconds)[j],
        ),
{
    lemma_run_bounded(start, seconds);
}

/// Once the last serial of a second is gone, that second yields only waits,
/// which leave the state alone; the first identifier after it belongs to
/// another second and carries serial zero.
pub proof fn lemma_exhaustion_blocks(state: SortableState, second: u64)
    requires
        state.serial == u16::MAX,
    ensures
        second == state.last_timestamp ==> state.issued_at(second) is None && state.advanced(second)
            == state,
        second != state.last_timestamp ==> state.issued_at(second) is Some && serial_field(
            state.issued_at(second).unwrap(),
        ) == 0 && timestamp_field(state.issued_at(second).unwrap()) == kept_timestamp(second),
{
    lemma_sortable_round_trip(second, 0);
}

/// What an answer looks like, whatever the state. A wait is given only in the
/// exhausted second and lasts from the reading to the next second boundary.
/// An identifier carries the masked second of the reading and the serial due
/// in that second, which is never `u16::MAX`.
pub proof fn lemma_step_shape(state: SortableState, reading: ClockReading)
    requires
        reading.spec_subsec_nanos() < NANOS_PER_SECOND,
    ensures
        match state.step_at(reading) {
            Step::Wait(nanos) => state.exhausted_at(reading.seconds()) && nanos == NANOS_PER_SECOND
                - reading.subsec_nanos() && 1 <= nanos <= NANOS_PER_SECOND,
            Step::Issued(id) => !state.exhausted_at(reading.seconds()) && timestamp_field(id)
                == kept_timestamp(reading.seconds()) && serial_field(id) == state.serial_at(
                reading.seconds(),
            ) && serial_field(id) < u16::MAX,
        },
{
    lemma_sortable_round_trip(reading.seconds(), state.serial_at(reading.seconds()));
}

} // verus!
