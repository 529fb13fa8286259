use idgen::clock::timestamp_noblock;
use idgen::layout::{compact_hash, compact_random, compact_serial, fold_timestamp};
use idgen::layout::{sortable_serial, sortable_timestamp};
use idgen::{gen, generate_compact_id, SharedCompact, SharedSortable, Step};
use rayon::iter::{IntoParallelRefIterator, ParallelIterator};
use std::collections::HashSet;
use std::time::{Duration, Instant};

fn next_id(generator: &SharedSortable) -> u64 {
    loop {
        match gen(generator).expect("system time before unix epoch") {
            Step::Issued(id) => return id,
            Step::Wait(nanos) => {
                let resume = Instant::now() + Duration::from_nanos(nanos);
                while Instant::now() < resume {
                    std::hint::spin_loop();
                }
            }
        }
    }
}

#[test]
fn unique() {
    let generator = SharedSortable::new(timestamp_noblock().expect("after the epoch"));
    let mut set = HashSet::with_capacity(100_000);
    for i in 0..100_000 {
        let id = next_id(&generator);
        if set.contains(&id) {
            panic!("duplicate after {} rounds", i);
        }
        set.insert(id);
    }
}

#[test]
fn unique_concurrent() {
    let generator = SharedSortable::new(timestamp_noblock().expect("after the epoch"));
    let ids: Vec<u64> = [0; 100_000].par_iter().map(|_| next_id(&generator)).collect();
    let mut set = HashSet::with_capacity(100_000);
    for (i, id) in ids.iter().enumerate() {
        if set.contains(&id) {
            panic!("duplicate at index {}", i);
        }
        set.insert(id);
    }
}

#[test]
fn shared_identifiers_increase_in_call_order() {
    let generator = SharedSortable::new(0);
    let started = timestamp_noblock().expect("after the epoch");
    let mut previous = next_id(&generator);
    assert_eq!(sortable_serial(previous), 0);
    assert!(sortable_timestamp(previous) >= started);
    for _ in 0..1_000 {
        let id = next_id(&generator);
        assert!(previous < id);
        let earlier = (sortable_timestamp(previous), sortable_serial(previous));
        let later = (sortable_timestamp(id), sortable_serial(id));
        assert!(earlier.0 < later.0 || (earlier.0 == later.0 && earlier.1 + 1 == later.1));
        previous = id;
    }
    assert!(sortable_timestamp(previous) <= timestamp_noblock().expect("after the epoch"));
}

#[test]
fn shared_generator_waits_once_a_second_is_used_up() {
    let generator = SharedSortable::new(0);
    let mut waits = 0;
    let mut issued = 0;
    let mut last_before_wait: Option<u64> = None;
    let mut previous: Option<u64> = None;
    while waits == 0 {
        match gen(&generator).expect("after the epoch") {
            Step::Issued(id) => {
                issued += 1;
                previous = Some(id);
            }
            Step::Wait(nanos) => {
                assert!(1 <= nanos && nanos <= 1_000_000_000);
                waits += 1;
                last_before_wait = previous;
            }
        }
        assert!(issued < 10_000_000);
    }
    let last = last_before_wait.expect("identifiers come before the first wait");
    assert_eq!(sortable_serial(last), 65_534);
    let after = next_id(&generator);
    assert_eq!(sortable_serial(after), 0);
    assert!(sortable_timestamp(after) > sortable_timestamp(last));
}

#[test]
fn shared_compact_serial_advances_and_wraps() {
    let generator = SharedCompact::new(254);
    assert_eq!(generator.next_serial(), 254);
    assert_eq!(generator.next_serial(), 255);
    assert_eq!(generator.next_serial(), 0);
}

#[test]
fn shared_compact_identifier_carries_its_draws() {
    let generator = SharedCompact::new(41);
    let before = timestamp_noblock().expect("after the epoch");
    let first = generate_compact_id(&generator, 0x0f0f, 0xab).expect("after the epoch");
    let second = generate_compact_id(&generator, 0x0f0f, 0xcd).expect("after the epoch");
    let after = timestamp_noblock().expect("after the epoch");
    assert_eq!(compact_serial(first), 41);
    assert_eq!(compact_serial(second), 42);
    assert_eq!(compact_random(first), 0xab);
    assert_eq!(compact_random(second), 0xcd);
    let hashes: Vec<u16> = (before..=after).map(|s| fold_timestamp(s) ^ 0x0f0f).collect();
    assert!(hashes.contains(&compact_hash(first)));
    assert!(hashes.contains(&compact_hash(second)));
}

#[test]
fn shared_compact_serials_are_unique_across_threads() {
    let generator = SharedCompact::new(0);
    let serials: Vec<u8> = [0; 256].par_iter().map(|_| generator.next_serial()).collect();
    let set: HashSet<u8> = serials.into_iter().collect();
    assert_eq!(set.len(), 256);
}
