//! Process-local generation of compact, sortable identifiers.
//!
//! Two kinds of identifier are made here, both without a central coordinator.
//!
//! A *sortable* identifier is 64 bits wide: a Unix timestamp in seconds,
//! masked, above a 16-bit serial that restarts with every second. Within one
//! generator such identifiers never repeat and come out in increasing order,
//! as long as the clock does not step back; when a second runs out of serials
//! the generator asks its caller to wait for the next one.
//!
//! A *compact* identifier is 32 bits wide: a 16-bit hash of the timestamp
//! mixed with a random draw, an 8-bit wrapping serial and a random byte. It
//! is unlikely to repeat, not certain to differ.
//!
//! - [`layout`] packs and unpacks both formats.
//! - [`sortable`] and [`compact`] hold the state machines and what is proved
//!   of them.
//! - [`clock`] reads the wall clock.
//! - [`shared`] puts a generator behind a lock for use from many threads.
//!
//! Nothing here sleeps or draws random numbers: the caller does.

pub mod clock;
pub mod compact;
pub mod layout;
pub mod shared;
pub mod sortable;

pub use crate::clock::{ClockError, ClockReading};
pub use crate::compact::CompactState;
pub use crate::shared::{gen, generate_compact_id, SharedCompact, SharedSortable};
pub use crate::sortable::{SortableState, Step};
