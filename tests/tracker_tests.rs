use cortex_m_microclock::tracker::{OverflowTracker, COUNTER_MODULUS};
use cortex_m_microclock::Instant;

const HZ: u32 = 8_000_000;

/// Feeds the tracker the readings of a counter whose true total goes from
/// `from` to `to` in steps of `step`, and returns the reading at `to`.
fn drive(t: &mut OverflowTracker, from: u64, to: u64, step: u64) -> u32 {
    let mut total = from;
    while total < to {
        total = (total + step).min(to);
        t.update((total % COUNTER_MODULUS) as u32);
    }
    (to % COUNTER_MODULUS) as u32
}

#[test]
fn fresh_tracker_reads_zero() {
    let t = OverflowTracker::new();
    assert_eq!(t.epochs(), 0);
    assert_eq!(t.last_raw(), 0);
    assert_eq!(t.ticks(), 0);
}

#[test]
fn update_without_wrap_keeps_epoch() {
    let mut t = OverflowTracker::new();
    t.update(10);
    t.update(4_000_000_000);
    assert_eq!(t.epochs(), 0);
    assert_eq!(t.last_raw(), 4_000_000_000);
    assert_eq!(t.ticks(), 4_000_000_000);
}

#[test]
fn lower_reading_counts_one_wrap() {
    let mut t = OverflowTracker::new();
    t.update(4_000_000_000);
    t.update(7);
    assert_eq!(t.epochs(), 1);
    assert_eq!(t.last_raw(), 7);
    assert_eq!(t.ticks(), COUNTER_MODULUS + 7);
}

#[test]
fn now_returns_wide_count() {
    let mut t = OverflowTracker::new();
    let a: Instant<HZ> = t.now(u32::MAX);
    assert_eq!(a.ticks(), u32::MAX as u64);
    let b: Instant<HZ> = t.now(0);
    assert_eq!(b.ticks(), COUNTER_MODULUS);
    let c: Instant<HZ> = t.now(1);
    assert_eq!(c.ticks(), COUNTER_MODULUS + 1);
}

#[test]
fn instants_never_go_backwards() {
    // Readings of a counter advancing by varying amounts below one wrap
    // period, some reported by `now`, some only reconciled by `update`.
    let steps: [u64; 12] = [
        3,
        4_000_000_000,
        1,
        4_294_967_295,
        123_456_789,
        0,
        2_000_000_000,
        2_500_000_000,
        17,
        4_294_967_000,
        999,
        3_000_000_000,
    ];
    let mut t = OverflowTracker::new();
    let mut total: u64 = 0;
    let mut previous: u64 = 0;
    for (k, step) in steps.iter().enumerate() {
        total += step;
        let raw = (total % COUNTER_MODULUS) as u32;
        if k % 3 == 1 {
            t.update(raw);
        } else {
            let i: Instant<HZ> = t.now(raw);
            assert!(i.ticks() >= previous);
            previous = i.ticks();
        }
    }
    assert_eq!(t.ticks(), total);
}

#[test]
fn reading_that_does_not_move_changes_nothing() {
    let mut t = OverflowTracker::new();
    t.update(3_000_000_000);
    t.update(12);
    let before = t.ticks();
    for _ in 0..50 {
        t.update(12);
    }
    assert_eq!(t.ticks(), before);
    assert_eq!(t.epochs(), 1);
    let i: Instant<HZ> = t.now(12);
    assert_eq!(i.ticks(), before);
}

#[test]
fn k_full_wraps_are_counted() {
    let mut t = OverflowTracker::new();
    let k: u64 = 3;
    let end = k * COUNTER_MODULUS + 77_777;
    let raw = drive(&mut t, 0, end, (1 << 30) - 7);
    assert_eq!(raw, 77_777);
    let i: Instant<HZ> = t.now(raw);
    assert_eq!(t.epochs() as u64, k);
    assert_eq!(i.ticks(), k * COUNTER_MODULUS + raw as u64);
}

#[test]
fn one_wrap_and_a_million_ticks_at_eight_megahertz() {
    let mut t = OverflowTracker::new();
    let start_total: u64 = 1_000;
    t.update(start_total as u32);
    let first: Instant<HZ> = t.now(start_total as u32);
    let end_total = start_total + COUNTER_MODULUS + 1_000_000;
    let raw = drive(&mut t, start_total, end_total, 1 << 28);
    let second: Instant<HZ> = t.now(raw);
    let elapsed = second.duration_since(first);
    assert_eq!(elapsed.ticks(), COUNTER_MODULUS + 1_000_000);
    assert_eq!(elapsed.to_micros(), 536_995_912);
    assert_eq!(elapsed.to_micros(), (COUNTER_MODULUS + 1_000_000) / 8);
}

#[test]
fn polled_wait_never_ends_early() {
    // A mock counter that advances 37 ticks between polls.
    let mut t = OverflowTracker::new();
    let mut total: u64 = COUNTER_MODULUS - 500;
    let start: Instant<HZ> = t.now((total % COUNTER_MODULUS) as u32);
    let wait = cortex_m_microclock::Duration::<HZ>::micros(100);
    assert_eq!(wait.ticks(), 800);
    let mut polls: u32 = 0;
    loop {
        total += 37;
        let current: Instant<HZ> = t.now((total % COUNTER_MODULUS) as u32);
        polls += 1;
        let done = start.elapsed_at_least(current, wait);
        assert_eq!(done, current.ticks() - start.ticks() >= wait.ticks());
        if done {
            assert!(current.duration_since(start) >= wait);
            break;
        }
    }
    // 800 / 37 rounds up to 22 polls.
    assert_eq!(polls, 22);
}
