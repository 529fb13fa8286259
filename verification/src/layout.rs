//! Bit layouts of the two identifier formats.
//!
//! A sortable identifier is a `u64`: the kept part of a Unix timestamp in the
//! bits from 16 upwards and a 16-bit serial in bits 15..0. A compact identifier
//! is a `u32`: a 16-bit timestamp hash in bits 31..16, an 8-bit serial in bits
//! 15..8 and a random byte in bits 7..0.
//!
//! The contracts state the layouts arithmetically, so that ordering and
//! uniqueness arguments can be made over plain integers.

use vstd::prelude::*;

verus! {

/// Mask applied to a Unix timestamp before it enters a sortable identifier.
/// It keeps the low 36 bits.
pub const TIMESTAMP_MASK: u64 = 0x0000_000f_ffff_ffff;

/// The part of a timestamp that survives [`TIMESTAMP_MASK`].
pub open spec fn kept_timestamp(timestamp: u64) -> u64 {
    timestamp & TIMESTAMP_MASK
}

/// The value of the sortable identifier made of `timestamp` and `serial`.
pub open spec fn sortable_value(timestamp: u64, serial: u16) -> int {
    kept_timestamp(timestamp) * 0x1_0000 + serial
}

/// The timestamp field of a sortable identifier: everything above its low 16
/// bits.
pub open spec fn timestamp_field(id: u64) -> u64 {
    id / 0x1_0000
}

/// The serial field of a sortable identifier: its low 16 bits.
pub open spec fn serial_field(id: u64) -> u16 {
    (id % 0x1_0000) as u16
}

/// Masking is reduction modulo 2^36: it never exceeds the mask and leaves
/// timestamps within the mask untouched.
pub proof fn lemma_kept_timestamp(timestamp: u64)
    ensures
        kept_timestamp(timestamp) == timestamp % 0x10_0000_0000,
        kept_timestamp(timestamp) <= TIMESTAMP_MASK,
        timestamp <= TIMESTAMP_MASK ==> kept_timestamp(timestamp) == timestamp,
{
    assert(timestamp & 0x0000_000f_ffff_ffffu64 == timestamp % 0x10_0000_0000u64) by (bit_vector);
}

/// Applies [`TIMESTAMP_MASK`] to a timestamp.
pub fn mask_timestamp(timestamp: u64) -> (kept: u64)
    ensures
        kept == kept_timestamp(timestamp),
        kept == timestamp % 0x10_0000_0000,
        kept <= TIMESTAMP_MASK,
{
    proof {
        lemma_kept_timestamp(timestamp);
    }
    timestamp & TIMESTAMP_MASK
}

/// Packs a timestamp and a serial into a sortable identifier: the masked
/// timestamp shifted left by 16, or-ed with the serial.
pub fn compose_sortable(timestamp: u64, serial: u16) -> (id: u64)
    ensures
        id == sortable_value(timestamp, serial),
        timestamp_field(id) == kept_timestamp(timestamp),
        serial_field(id) == serial,
{
    let kept = mask_timestamp(timestamp);
    assert((kept << 16) | (serial as u64) == kept * 0x1_0000 + serial) by (bit_vector)
        requires
            kept <= 0x0000_000f_ffff_ffffu64,
    ;
    (kept << 16) | (serial as u64)
}

/// Reads the timestamp field of a sortable identifier.
pub fn sortable_timestamp(id: u64) -> (timestamp: u64)
    ensures
        timestamp == timestamp_field(id),
{
    assert(id >> 16 == id / 0x1_0000) by (bit_vector);
    id >> 16
}

/// Reads the serial field of a sortable identifier.
pub fn sortable_serial(id: u64) -> (serial: u16)
    ensures
        serial == serial_field(id),
{
    assert((id & 0xffff) == id % 0x1_0000) by (bit_vector);
    (id & 0xffff) as u16
}

/// Unpacking a sortable identifier gives back the masked timestamp and the
/// serial it was packed from.
pub proof fn lemma_sortable_round_trip(timestamp: u64, serial: u16)
    ensures
        0 <= sortable_value(timestamp, serial) <= u64::MAX,
        timestamp_field(sortable_value(timestamp, serial) as u64) == kept_timestamp(timestamp),
        serial_field(sortable_value(timestamp, serial) as u64) == serial,
{
    lemma_kept_timestamp(timestamp);
}

/// Identifiers compare as their (masked timestamp, serial) pairs do.
pub proof fn lemma_sortable_order(t1: u64, s1: u16, t2: u64, s2: u16)
    ensures
        sortable_value(t1, s1) < sortable_value(t2, s2) <==> kept_timestamp(t1) < kept_timestamp(
            t2,
        ) || (kept_timestamp(t1) == kept_timestamp(t2) && s1 < s2),
        sortable_value(t1, s1) == sortable_value(t2, s2) <==> kept_timestamp(t1) == kept_timestamp(
            t2,
        ) && s1 == s2,
{
}

/// The 16-bit word of `value` that starts at bit `16 * index`.
pub open spec fn word16(value: u64, index: u64) -> u16 {
    ((value >> (16 * index)) & 0xffff) as u16
}

/// A 64-bit timestamp folded to 16 bits: the exclusive or of its four 16-bit
/// words.
pub open spec fn folded_timestamp(timestamp: u64) -> u16 {
    word16(timestamp, 3) ^ word16(timestamp, 2) ^ word16(timestamp, 1) ^ word16(timestamp, 0)
}

/// The value of the compact identifier made of a timestamp hash, a serial and
/// a random byte.
pub open spec fn compact_value(hash: u16, serial: u8, random: u8) -> int {
    hash * 0x1_0000 + serial * 0x100 + random
}

/// The timestamp hash of a compact identifier: its high 16 bits.
pub open spec fn hash_field(id: u32) -> u16 {
    (id / 0x1_0000) as u16
}

/// The serial of a compact identifier: bits 15..8.
pub open spec fn compact_serial_field(id: u32) -> u8 {
    ((id / 0x100) % 0x100) as u8
}

/// The random byte of a compact identifier: its low 8 bits.
pub open spec fn random_field(id: u32) -> u8 {
    (id % 0x100) as u8
}

/// Folds a timestamp to 16 bits.
pub fn fold_timestamp(timestamp: u64) -> (hash: u16)
    ensures
        hash == folded_timestamp(timestamp),
{
    let mixed = (timestamp >> 48) ^ (timestamp >> 32) ^ (timestamp >> 16) ^ timestamp;
    assert((mixed & 0xffff) as u16 == folded_timestamp(timestamp)) by (bit_vector)
        requires
            mixed == (timestamp >> 48) ^ (timestamp >> 32) ^ (timestamp >> 16) ^ timestamp,
    ;
    (mixed & 0xffff) as u16
}

/// Packs a timestamp hash, a serial and a random byte into a compact
/// identifier.
pub fn pack_compact(hash: u16, serial: u8, random: u8) -> (id: u32)
    ensures
        id == compact_value(hash, serial, random),
        hash_field(id) == hash,
        compact_serial_field(id) == serial,
        random_field(id) == random,
{
    assert(((hash as u32) << 16) | ((serial as u32) << 8) | (random as u32) == hash * 0x1_0000
        + serial * 0x100 + random) by (bit_vector);
    ((hash as u32) << 16) | ((serial as u32) << 8) | (random as u32)
}

/// Builds a compact identifier from a timestamp and three draws: the folded
/// timestamp is mixed with `mix` by exclusive or, then packed with the serial
/// and the random byte.
pub fn compose_compact(timestamp: u64, mix: u16, serial: u8, random: u8) -> (id: u32)
    ensures
        id == compact_value(folded_timestamp(timestamp) ^ mix, serial, random),
        hash_field(id) == folded_timestamp(timestamp) ^ mix,
        compact_serial_field(id) == serial,
        random_field(id) == random,
{
    pack_compact(fold_timestamp(timestamp) ^ mix, serial, random)
}

/// Reads the timestamp hash of a compact identifier.
pub fn compact_hash(id: u32) -> (hash: u16)
    ensures
        hash == hash_field(id),
{
    assert(id >> 16 == id / 0x1_0000) by (bit_vector);
    (id >> 16) as u16
}

/// Reads the serial of a compact identifier.
pub fn compact_serial(id: u32) -> (serial: u8)
    ensures
        serial == compact_serial_field(id),
{
    assert((id >> 8) & 0xff == (id / 0x100) % 0x100) by (bit_vector);
    ((id >> 8) & 0xff) as u8
}

/// Reads the random byte of a compact identifier.
pub fn compact_random(id: u32) -> (random: u8)
    ensures
        random == random_field(id),
{
    assert(id & 0xff == id % 0x100) by (bit_vector);
    (id & 0xff) as u8
}

/// Unpacking a compact identifier gives back the three fields it was packed
/// from.
pub proof fn lemma_compact_round_trip(hash: u16, serial: u8, random: u8)
    ensures
        0 <= compact_value(hash, serial, random) <= u32::MAX,
        hash_field(compact_value(hash, serial, random) as u32) == hash,
        compact_serial_field(compact_value(hash, serial, random) as u32) == serial,
        random_field(compact_value(hash, serial, random) as u32) == random,
{
}

} // verus!
