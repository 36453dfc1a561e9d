//! The clock that owns the DWT peripheral and reads its CYCCNT counter.
//!
//! Owning the `DWT` value is what makes a second clock over the same counter
//! impossible: cortex-m hands that value out once. The clock is reconciled
//! with the counter on every `now` and `update`; the integrator must make
//! `update` run at least once per wrap period (`SYSCLK_HZ / 2^32` times per
//! second), typically from a periodic interrupt, with the clock kept in an
//! interrupt-free critical section while it is touched.
use crate::time::{Duration, Instant};
use crate::tracker::{OverflowTracker, TickState, COUNTER_MODULUS};
use cortex_m::peripheral::{DCB, DWT};
use vstd::prelude::*;

verus! {

#[verifier::external_type_specification]
#[verifier::external_body]
pub struct ExDwt(DWT);

#[verifier::external_type_specification]
#[verifier::external_body]
pub struct ExDcb(DCB);

/// Relies on cortex-m's `DWT::has_cycle_counter`: whether this core
/// implements CYCCNT. Only the hardware knows, so nothing is promised.
#[verifier::external_body]
fn has_cycle_counter() -> (r: bool) {
    DWT::has_cycle_counter()
}

/// Relies on cortex-m's `DCB::enable_trace`: sets TRCENA, which the cycle
/// counter needs in order to count.
#[verifier::external_body]
fn enable_trace(dcb: &mut DCB) {
    dcb.enable_trace()
}

/// Relies on cortex-m's `DWT::unlock`: removes the software lock that some
/// devices put on the DWT after a power cycle.
#[verifier::external_body]
fn unlock_dwt() {
    DWT::unlock()
}

/// Relies on cortex-m's `DWT::enable_cycle_counter`: starts CYCCNT counting.
#[verifier::external_body]
fn enable_cycle_counter(dwt: &mut DWT) {
    dwt.enable_cycle_counter()
}

/// Relies on cortex-m's `DWT::disable_cycle_counter`: stops CYCCNT counting.
#[verifier::external_body]
fn disable_cycle_counter(dwt: &mut DWT) {
    dwt.disable_cycle_counter()
}

/// Relies on cortex-m's `DWT::set_cycle_count`: writes CYCCNT.
#[verifier::external_body]
fn set_cycle_count(dwt: &mut DWT, count: u32) {
    dwt.set_cycle_count(count)
}

/// Relies on a volatile read of the DWT's CYCCNT register through cortex-m's
/// register block. The value is whatever the hardware counted, so nothing is
/// promised of it.
#[verifier::external_body]
fn read_cycle_count(dwt: &DWT) -> (r: u32) {
    dwt.cyccnt.read()
}

/// A monotonic clock at `SYSCLK_HZ` ticks per second, built on CYCCNT.
pub struct CYCCNTClock<const SYSCLK_HZ: u32> {
    dwt: DWT,
    tracker: OverflowTracker,
}

impl<const SYSCLK_HZ: u32> View for CYCCNTClock<SYSCLK_HZ> {
    type V = TickState;

    closed spec fn view(&self) -> TickState {
        self.tracker@
    }
}

impl<const SYSCLK_HZ: u32> CYCCNTClock<SYSCLK_HZ> {
    /// Takes the DWT, enables tracing and the cycle counter, resets the
    /// counter to 0 and starts counting from epoch 0. Hands the DWT back when
    /// the core has no cycle counter.
    pub fn init(dcb: &mut DCB, dwt: DWT) -> (r: Result<Self, DWT>)
        ensures
            r matches Ok(c) ==> c@ == TickState::fresh(),
    {
        if !has_cycle_counter() {
            return Err(dwt);
        }
        let mut dwt = dwt;
        enable_trace(dcb);
        unlock_dwt();
        enable_cycle_counter(&mut dwt);
        set_cycle_count(&mut dwt, 0);
        Ok(CYCCNTClock { dwt, tracker: OverflowTracker::new() })
    }

    /// The number of counter wraps counted so far. The 64-bit time base is
    /// exhausted when it reaches `u32::MAX`.
    pub fn epochs(&self) -> (r: u32)
        ensures
            r == self@.epochs,
    {
        self.tracker.epochs()
    }

    /// Reconciles the clock with the counter. Must run at least once per wrap
    /// period, or wraps go uncounted.
    pub fn update(&mut self)
        requires
            old(self)@.epochs < u32::MAX,
        ensures
            final(self)@.last < COUNTER_MODULUS,
            final(self)@ == old(self)@.reconciled(final(self)@.last),
    {
        let raw = read_cycle_count(&self.dwt);
        self.tracker.update(raw);
    }

    /// Reconciles the clock with the counter and returns the current instant.
    pub fn now(&mut self) -> (r: Instant<SYSCLK_HZ>)
        requires
            old(self)@.epochs < u32::MAX,
        ensures
            final(self)@.last < COUNTER_MODULUS,
            final(self)@ == old(self)@.reconciled(final(self)@.last),
            r@ == final(self)@.ticks(),
    {
        let raw = read_cycle_count(&self.dwt);
        self.tracker.now(raw)
    }

    /// One poll of a busy wait that began at `start`: reconciles, and tells
    /// whether at least `duration` has passed since `start`. A wait loops on
    /// this until it returns `true`.
    pub fn delay_poll(&mut self, start: Instant<SYSCLK_HZ>, duration: Duration<SYSCLK_HZ>) -> (r:
        bool)
        requires
            old(self)@.epochs < u32::MAX,
        ensures
            final(self)@.last < COUNTER_MODULUS,
            final(self)@ == old(self)@.reconciled(final(self)@.last),
            r == (final(self)@.ticks() >= start@ + duration@),
    {
        let current = self.now();
        start.elapsed_at_least(current, duration)
    }

    /// Stops the cycle counter and hands the DWT back.
    pub fn release(self) -> (r: DWT) {
        let mut dwt = self.dwt;
        disable_cycle_counter(&mut dwt);
        dwt
    }
}

} // verus!
