//! Generators that any number of threads may share.
//!
//! Each generator keeps its state behind a `parking_lot::Mutex`. What another
//! thread left in that state is not known to the caller, so the contracts
//! here say only that an answer is one that the state machine gives in some
//! state; the exact rules are those of [`SortableState`] and
//! [`CompactState`].

use crate::clock::{elapsed_since_epoch, now, reads_as, ClockError, ClockReading};
use crate::compact::CompactState;
use crate::layout::{compact_value, compose_compact, folded_timestamp};
use crate::sortable::{SortableState, Step};
use vstd::prelude::*;

verus! {

/// `parking_lot::RawMutex`, the lock inside a `parking_lot::Mutex`.
#[verifier::external_type_specification]
#[verifier::external_body]
pub struct ExRawMutex(parking_lot::RawMutex);

/// `lock_api::Mutex`, of which `parking_lot::Mutex<T>` is the case with
/// `parking_lot::RawMutex` as its lock. The value inside is hidden from the
/// proofs.
#[verifier::external_type_specification]
#[verifier::external_body]
#[verifier::reject_recursive_types(R)]
#[verifier::reject_recursive_types(T)]
pub struct ExMutex<R, T: ?Sized>(parking_lot::lock_api::Mutex<R, T>);

/// A held lock: the guard of a locked `parking_lot::Mutex`, which releases the
/// lock when it goes out of scope. The guard's own type is bounded by a trait
/// of `lock_api` and cannot be declared to the verifier, so it is kept whole
/// behind this struct.
#[verifier::external_body]
#[verifier::reject_recursive_types(T)]
struct Held<'a, T> {
    guard: parking_lot::MutexGuard<'a, T>,
}

/// `parking_lot::Mutex::new`: an unlocked mutex around `value`.
#[verifier::external_body]
fn mutex_new<T>(value: T) -> parking_lot::Mutex<T> {
    parking_lot::Mutex::new(value)
}

/// `parking_lot::Mutex::lock`: blocks until the mutex is held and returns its
/// guard. Nothing is claimed of the value behind it, which other threads may
/// have changed. A thread that already holds the mutex would wait forever;
/// the callers in this file take it once and let go before they return.
#[verifier::external_body]
fn mutex_lock<T>(mutex: &parking_lot::Mutex<T>) -> Held<'_, T> {
    Held { guard: mutex.lock() }
}

/// `DerefMut::deref_mut` of a `parking_lot::MutexGuard`: the value that the
/// held mutex protects.
#[verifier::external_body]
fn held_value<'a, 'b, T>(held: &'a mut Held<'b, T>) -> &'a mut T {
    std::ops::DerefMut::deref_mut(&mut held.guard)
}

/// A sortable generator behind a mutex.
pub struct SharedSortable {
    state: parking_lot::Mutex<SortableState>,
}

impl SharedSortable {
    /// A generator that has issued nothing yet, caching `timestamp`.
    pub fn new(timestamp: u64) -> SharedSortable {
        SharedSortable { state: mutex_new(SortableState::new(timestamp)) }
    }
}

/// A compact generator behind a mutex.
pub struct SharedCompact {
    state: parking_lot::Mutex<CompactState>,
}

impl SharedCompact {
    /// A generator whose serial starts at `seed`.
    pub fn new(seed: u8) -> SharedCompact {
        SharedCompact { state: mutex_new(CompactState::new(seed)) }
    }

    /// Returns the generator's current serial and moves it on by one, wrapping
    /// from 255 to 0. The lock is held for just that.
    pub fn next_serial(&self) -> u8 {
        let mut held = mutex_lock(&self.state);
        held_value(&mut held).next_serial()
    }
}

/// Takes one step towards the next sortable identifier.
///
/// Locks the generator, reads the clock and lets the state answer the
/// reading: with the identifier, or with the time to sleep before the next
/// call when the second has no serial left. The lock is released on return,
/// so a caller that has to wait does not keep others from finding that out.
///
/// The answer is the one that the state machine gives, in the state that the
/// lock held, to a reading of the system clock. The call fails only when the
/// system clock showed a time before the Unix epoch, and then changes
/// nothing.
pub fn gen(generator: &SharedSortable) -> (outcome: Result<Step, ClockError>)
    ensures
        outcome matches Ok(step) ==> exists|
            before: SortableState,
            time: std::time::SystemTime,
            reading: ClockReading,
        | #[trigger] reads_as(time, reading) && step == #[trigger] before.step_at(reading),
        outcome matches Err(fault) ==> fault == ClockError::BeforeEpoch && exists|
            time: std::time::SystemTime,
        | elapsed_since_epoch(time) is None,
{
    let mut held = mutex_lock(&generator.state);
    match now() {
        Ok(reading) => {
            let state = held_value(&mut held);
            let ghost before = *state;
            let step = state.issue(reading);
            proof {
                let time = choose|time: std::time::SystemTime| reads_as(time, reading);
                assert(reads_as(time, reading) && step == before.step_at(reading));
            }
            Ok(step)
        },
        Err(fault) => Err(fault),
    }
}

/// Issues a compact identifier from a 16-bit draw `mix` and an 8-bit draw
/// `random`: the second that the system clock shows, folded and mixed with
/// `mix`, then the generator's next serial, then `random`.
///
/// The call fails only when the system clock showed a time before the Unix
/// epoch, and then leaves the serial alone.
pub fn generate_compact_id(generator: &SharedCompact, mix: u16, random: u8) -> (outcome: Result<
    u32,
    ClockError,
>)
    ensures
        outcome matches Ok(id) ==> exists|
            time: std::time::SystemTime,
            reading: ClockReading,
            serial: u8,
        | #[trigger]
            reads_as(time, reading) && id == #[trigger] compact_value(
                folded_timestamp(reading.seconds()) ^ mix,
                serial,
                random,
            ),
        outcome matches Err(fault) ==> fault == ClockError::BeforeEpoch && exists|
            time: std::time::SystemTime,
        | elapsed_since_epoch(time) is None,
{
    match now() {
        Ok(reading) => {
            let serial = generator.next_serial();
            let id = compose_compact(reading.seconds(), mix, serial, random);
            proof {
                let time = choose|time: std::time::SystemTime| reads_as(time, reading);
                assert(reads_as(time, reading) && id == compact_value(
                    folded_timestamp(reading.seconds()) ^ mix,
                    serial,
                    random,
                ));
            }
            Ok(id)
        },
        Err(fault) => Err(fault),
    }
}

} // verus!
