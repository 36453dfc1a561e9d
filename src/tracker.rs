//! Reconciliation of a wrapping 32-bit counter into a wide tick count.
//!
//! A reading below the previous one means the counter wrapped once since the
//! previous reconciliation; the tracker then counts one more epoch. The wide
//! count is `epochs * 2^32 + last reading`.
use crate::time::Instant;
use vstd::arithmetic::div_mod::lemma_fundamental_div_mod_converse;
use vstd::prelude::*;

verus! {

/// Number of distinct raw counter values: the counter wraps to 0 after `2^32 - 1`.
pub const COUNTER_MODULUS: u64 = 0x1_0000_0000;

/// What a tracker knows: how many wraps it has counted and the last raw reading.
pub struct TickState {
    pub epochs: nat,
    pub last: nat,
}

/// How far the raw counter moved forward from reading `from` to reading `to`,
/// counting at most one wrap.
pub open spec fn advance(from: nat, to: nat) -> nat {
    if to >= from {
        (to - from) as nat
    } else {
        (to + COUNTER_MODULUS - from) as nat
    }
}

impl TickState {
    /// The state right after the counter was reset to 0.
    pub open spec fn fresh() -> TickState {
        TickState { epochs: 0, last: 0 }
    }

    /// The last reading is a counter value.
    pub open spec fn wf(self) -> bool {
        self.last < COUNTER_MODULUS
    }

    /// The wide tick count.
    pub open spec fn ticks(self) -> nat {
        self.epochs * (COUNTER_MODULUS as nat) + self.last
    }

    /// The state after one reconciliation with the raw reading `raw`.
    pub open spec fn reconciled(self, raw: nat) -> TickState {
        TickState {
            epochs: if raw < self.last {
                self.epochs + 1
            } else {
                self.epochs
            },
            last: raw,
        }
    }

    /// The state after reconciling with each reading of `raws` in turn.
    pub open spec fn reconciled_all(self, raws: Seq<nat>) -> TickState
        decreases raws.len(),
    {
        if raws.len() == 0 {
            self
        } else {
            self.reconciled_all(raws.drop_last()).reconciled(raws.last())
        }
    }

    /// Reconciling with `raw` keeps the epoch count within `u32`.
    pub open spec fn epochs_fit(self, raw: nat) -> bool {
        raw < self.last ==> self.epochs < u32::MAX
    }
}

/// Every reading of `raws` is a counter value.
pub open spec fn all_counter_values(raws: Seq<nat>) -> bool {
    forall|k: int| 0 <= k < raws.len() ==> #[trigger] raws[k] < COUNTER_MODULUS
}

/// The true counter totals `counts` never fall and each rises by less than
/// one wrap period over the one before it (the first over `start`).
pub open spec fn closely_spaced(start: nat, counts: Seq<nat>) -> bool {
    forall|k: int|
        0 <= k < counts.len() ==> {
            let prev = if k == 0 {
                start
            } else {
                counts[k - 1]
            };
            prev <= #[trigger] counts[k] && counts[k] < prev + COUNTER_MODULUS
        }
}

/// The raw readings of a counter whose true totals are `counts`.
pub open spec fn readings_of(counts: Seq<nat>) -> Seq<nat> {
    counts.map_values(|c: nat| c % (COUNTER_MODULUS as nat))
}

/// One reconciliation moves the wide count forward by exactly how far the raw
/// counter moved, counting at most one wrap; in particular never backwards.
pub proof fn lemma_reconcile_advances(s: TickState, raw: nat)
    requires
        s.wf(),
        raw < COUNTER_MODULUS,
    ensures
        s.reconciled(raw).wf(),
        s.reconciled(raw).ticks() == s.ticks() + advance(s.last, raw),
        s.reconciled(raw).ticks() >= s.ticks(),
{
    assert((s.epochs + 1) * COUNTER_MODULUS == s.epochs * COUNTER_MODULUS + COUNTER_MODULUS)
        by (nonlinear_arith);
}

/// Reconciling with counter values leaves a well-formed state.
proof fn lemma_reconciled_all_wf(s: TickState, raws: Seq<nat>)
    requires
        s.wf(),
        all_counter_values(raws),
    ensures
        s.reconciled_all(raws).wf(),
    decreases raws.len(),
{
    if raws.len() > 0 {
        lemma_reconciled_all_wf(s, raws.drop_last());
    }
}

/// Whatever the readings and however reconciliations that report the time are
/// interleaved with those that do not, the wide count after a longer prefix
/// of the readings is never below the count after a shorter one.
pub proof fn lemma_ticks_never_decrease(s: TickState, raws: Seq<nat>, i: int, j: int)
    requires
        s.wf(),
        all_counter_values(raws),
        0 <= i <= j <= raws.len(),
    ensures
        s.reconciled_all(raws.take(i)).ticks() <= s.reconciled_all(raws.take(j)).ticks(),
    decreases j - i,
{
    if i < j {
        lemma_ticks_never_decrease(s, raws, i, j - 1);
        let prefix = raws.take(j - 1);
        assert(raws.take(j).drop_last() =~= prefix);
        assert(all_counter_values(prefix));
        lemma_reconciled_all_wf(s, prefix);
        lemma_reconcile_advances(s.reconciled_all(prefix), raws[j - 1]);
    }
}

/// A counter total seen as a reading: the wrap count and the remainder.
proof fn lemma_split_total(total: nat, s: TickState)
    requires
        s.wf(),
        s.ticks() == total,
    ensures
        s.epochs == total / (COUNTER_MODULUS as nat),
        s.last == total % (COUNTER_MODULUS as nat),
{
    lemma_fundamental_div_mod_converse(
        total as int,
        COUNTER_MODULUS as int,
        s.epochs as int,
        s.last as int,
    );
}

/// Between two totals less than one wrap period apart, the readings are
/// `advance`d by exactly the difference of the totals.
proof fn lemma_advance_of_readings(prev: nat, next: nat)
    requires
        prev <= next < prev + COUNTER_MODULUS,
    ensures
        advance(prev % (COUNTER_MODULUS as nat), next % (COUNTER_MODULUS as nat)) == next - prev,
{
    let m = COUNTER_MODULUS as int;
    let q = prev as int / m;
    let r = prev as int % m;
    let d = next - prev;
    assert(prev == q * m + r && 0 <= r < m) by {
        vstd::arithmetic::div_mod::lemma_fundamental_div_mod(prev as int, m);
    }
    if r + d < m {
        lemma_fundamental_div_mod_converse(next as int, m, q, r + d);
    } else {
        assert(next == (q + 1) * m + (r + d - m)) by (nonlinear_arith)
            requires
                prev == q * m + r,
                next == prev + d,
        ;
        lemma_fundamental_div_mod_converse(next as int, m, q + 1, r + d - m);
    }
}

/// Reconciling with the readings of a counter whose totals rise by less than
/// one wrap period between reconciliations makes the wide count equal the
/// last total: the epoch count is the number of full wraps, the last reading
/// the remainder.
pub proof fn lemma_tracks_true_count(s: TickState, counts: Seq<nat>)
    requires
        s.wf(),
        closely_spaced(s.ticks(), counts),
        counts.len() > 0,
    ensures
        s.reconciled_all(readings_of(counts)).ticks() == counts.last(),
        s.reconciled_all(readings_of(counts)).epochs == counts.last() / (COUNTER_MODULUS as nat),
        s.reconciled_all(readings_of(counts)).last == counts.last() % (COUNTER_MODULUS as nat),
    decreases counts.len(),
{
    let m = COUNTER_MODULUS as nat;
    let earlier = counts.drop_last();
    let prev = if counts.len() == 1 {
        s.ticks()
    } else {
        counts[counts.len() - 2]
    };
    assert(readings_of(counts).drop_last() =~= readings_of(earlier));
    let t = s.reconciled_all(readings_of(earlier));
    if counts.len() == 1 {
        assert(earlier =~= Seq::<nat>::empty());
        assert(readings_of(earlier) =~= Seq::<nat>::empty());
        lemma_split_total(prev, s);
    } else {
        assert(closely_spaced(s.ticks(), earlier)) by {
            assert forall|k: int| 0 <= k < earlier.len() implies {
                let p = if k == 0 {
                    s.ticks()
                } else {
                    earlier[k - 1]
                };
                p <= #[trigger] earlier[k] && earlier[k] < p + COUNTER_MODULUS
            } by {
                assert(counts[k] == earlier[k]);
            }
        }
        lemma_tracks_true_count(s, earlier);
    }
    assert(t.ticks() == prev && t.last == prev % m);
    assert(prev <= counts.last() < prev + COUNTER_MODULUS);
    lemma_advance_of_readings(prev, counts.last());
    lemma_reconcile_advances(t, counts.last() % m);
    lemma_split_total(counts.last(), t.reconciled(counts.last() % m));
}

/// Once the tracker has seen a reading, reconciling again any number of times
/// with that same reading changes nothing.
pub proof fn lemma_update_idempotent(s: TickState, raw: nat, n: nat)
    ensures
        s.reconciled(raw).reconciled_all(Seq::new(n, |k: int| raw)) == s.reconciled(raw),
    decreases n,
{
    if n > 0 {
        lemma_update_idempotent(s, raw, (n - 1) as nat);
        assert(Seq::new(n, |k: int| raw).drop_last() =~= Seq::new((n - 1) as nat, |k: int| raw));
    }
}

/// The overflow-tracking state of a clock, fed with raw counter readings.
pub struct OverflowTracker {
    epochs: u32,
    last: u32,
}

impl View for OverflowTracker {
    type V = TickState;

    closed spec fn view(&self) -> TickState {
        TickState { epochs: self.epochs as nat, last: self.last as nat }
    }
}

impl OverflowTracker {
    /// A tracker for a counter that was just reset to 0.
    pub fn new() -> (r: Self)
        ensures
            r@ == TickState::fresh(),
    {
        OverflowTracker { epochs: 0, last: 0 }
    }

    /// The number of wraps counted so far.
    pub fn epochs(&self) -> (r: u32)
        ensures
            r == self@.epochs,
    {
        self.epochs
    }

    /// The raw reading of the latest reconciliation.
    pub fn last_raw(&self) -> (r: u32)
        ensures
            r == self@.last,
    {
        self.last
    }

    /// The wide tick count as of the latest reconciliation.
    pub fn ticks(&self) -> (r: u64)
        ensures
            r == self@.ticks(),
    {
        let e = self.epochs as u64;
        assert(e * COUNTER_MODULUS <= u64::MAX - (u32::MAX as u64)) by (nonlinear_arith)
            requires
                e <= u32::MAX,
        ;
        e * COUNTER_MODULUS + self.last as u64
    }

    /// Reconciles with the raw reading `raw`: counts one wrap if `raw` is below
    /// the previous reading, and keeps `raw` as the latest reading.
    pub fn update(&mut self, raw: u32)
        requires
            old(self)@.epochs_fit(raw as nat),
        ensures
            final(self)@ == old(self)@.reconciled(raw as nat),
    {
        if raw < self.last {
            self.epochs = self.epochs + 1;
        }
        self.last = raw;
    }

    /// Reconciles with the raw reading `raw` and returns the wide tick count
    /// as an instant at `HZ` ticks per second.
    pub fn now<const HZ: u32>(&mut self, raw: u32) -> (r: Instant<HZ>)
        requires
            old(self)@.epochs_fit(raw as nat),
        ensures
            final(self)@ == old(self)@.reconciled(raw as nat),
            r@ == final(self)@.ticks(),
    {
        self.update(raw);
        Instant::from_ticks(self.ticks())
    }
}

} // verus!
