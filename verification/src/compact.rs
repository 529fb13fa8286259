//! The serial counter behind compact identifiers.
//!
//! A compact identifier carries an 8-bit serial that advances by one with
//! every identifier and wraps from 255 to 0. Nothing resets it, and nothing
//! waits when it wraps: compact identifiers are unlikely to collide, not
//! certain to differ.

use crate::layout::{compact_value, compose_compact, folded_timestamp, lemma_compact_round_trip};
use vstd::prelude::*;

verus! {

/// The serial counter of one compact generator.
#[derive(Clone, Copy, Debug, PartialEq, Eq, Structural)]
pub struct CompactState {
    pub serial: u8,
}

/// The serial that follows `serial`: one more, and zero after 255.
pub open spec fn serial_after(serial: u8) -> u8 {
    if serial == u8::MAX {
        0
    } else {
        (serial + 1) as u8
    }
}

/// The serial handed out by the call that comes `calls` calls after the one
/// that handed out `seed`.
pub open spec fn serial_in(seed: u8, calls: nat) -> u8
    decreases calls,
{
    if calls == 0 {
        seed
    } else {
        serial_after(serial_in(seed, (calls - 1) as nat))
    }
}

impl CompactState {
    /// A counter that starts at `seed`. Any seed will do; a generator draws it
    /// at random so that its first serials cannot be predicted.
    pub fn new(seed: u8) -> (state: CompactState)
        ensures
            state.serial == seed,
    {
        CompactState { serial: seed }
    }

    /// Returns the current serial and moves the counter on by one, wrapping
    /// from 255 to 0.
    pub fn next_serial(&mut self) -> (serial: u8)
        ensures
            serial == old(self).serial,
            final(self).serial == serial_after(old(self).serial),
    {
        let serial = self.serial;
        self.serial = if serial == u8::MAX {
            0
        } else {
            serial + 1
        };
        serial
    }

    /// Issues the next compact identifier for a clock reading of `timestamp`
    /// seconds, from a 16-bit draw `mix` and an 8-bit draw `random`.
    pub fn issue(&mut self, timestamp: u64, mix: u16, random: u8) -> (id: u32)
        ensures
            id == compact_value(folded_timestamp(timestamp) ^ mix, old(self).serial, random),
            final(self).serial == serial_after(old(self).serial),
    {
        let serial = self.next_serial();
        compose_compact(timestamp, mix, serial, random)
    }
}

/// The counter is a clock of 256 positions: after `calls` calls it has moved
/// on by `calls` modulo 256.
pub proof fn lemma_serial_in(seed: u8, calls: nat)
    ensures
        serial_in(seed, calls) == (seed + calls) % 256,
    decreases calls,
{
    if calls > 0 {
        lemma_serial_in(seed, (calls - 1) as nat);
    }
}

/// Two identifiers of one generator that are fewer than 256 calls apart
/// differ, whatever timestamps and draws went into them: their serials do.
pub proof fn lemma_nearby_identifiers_differ(
    seed: u8,
    first: nat,
    second: nat,
    hash_first: u16,
    random_first: u8,
    hash_second: u16,
    random_second: u8,
)
    requires
        first < second < first + 256,
    ensures
        serial_in(seed, first) != serial_in(seed, second),
        compact_value(hash_first, serial_in(seed, first), random_first) != compact_value(
            hash_second,
            serial_in(seed, second),
            random_second,
        ),
{
    lemma_serial_in(seed, first);
    lemma_serial_in(seed, second);
    lemma_compact_round_trip(hash_first, serial_in(seed, first), random_first);
    lemma_compact_round_trip(hash_second, serial_in(seed, second), random_second);
}

} // verus!
