//! Points and spans on the extended time base, counted in ticks of a fixed
//! frequency `HZ` (ticks per second).
use core::cmp::Ordering;
use vstd::prelude::*;

verus! {

/// Greatest common divisor, by Euclid's rule.
pub open spec fn gcd(a: nat, b: nat) -> nat
    decreases b,
{
    if b == 0 {
        a
    } else {
        gcd(b, a % b)
    }
}

/// `ticks` at `hz` ticks per second, in whole microseconds (rounded down).
pub open spec fn ticks_to_micros(ticks: nat, hz: nat) -> nat {
    ticks * 1_000_000 / hz
}

/// `micros` microseconds in whole ticks at `hz` ticks per second (rounded down).
pub open spec fn micros_to_ticks(micros: nat, hz: nat) -> nat {
    micros * hz / 1_000_000
}

/// The microsecond conversion first scales `ticks` by the reduced factor
/// `1_000_000 / gcd(1_000_000, hz)`; this says that product fits in `u64`.
pub open spec fn micros_fit(ticks: nat, hz: nat) -> bool {
    ticks * (1_000_000nat / gcd(1_000_000nat, hz)) <= u64::MAX
}

/// Building a duration from microseconds first scales them by the reduced
/// factor `hz / gcd(1_000_000, hz)`; this says that product fits in `u64`.
pub open spec fn ticks_fit(micros: nat, hz: nat) -> bool {
    micros * (hz / gcd(1_000_000nat, hz)) <= u64::MAX
}

/// Relies on fugit's `Duration::<u64, 1, HZ>::to_micros`: it multiplies the
/// ticks by `1_000_000 / g` and divides by `HZ / g`, where
/// `g = gcd(1_000_000, HZ)`, which is `ticks * 1_000_000 / HZ` rounded down
/// whenever that product fits. fugit refuses `HZ == 0` at compile time.
#[verifier::external_body]
fn fugit_to_micros<const HZ: u32>(ticks: u64) -> (r: u64)
    requires
        HZ > 0,
        micros_fit(ticks as nat, HZ as nat),
    ensures
        r == ticks_to_micros(ticks as nat, HZ as nat),
{
    fugit::TimerDurationU64::<HZ>::from_ticks(ticks).to_micros()
}

/// Relies on fugit's `Duration::<u64, 1, HZ>::micros`: it multiplies `micros`
/// by `HZ / g` and divides by `1_000_000 / g`, where `g = gcd(1_000_000, HZ)`,
/// which is `micros * HZ / 1_000_000` rounded down whenever that product fits.
#[verifier::external_body]
fn fugit_micros<const HZ: u32>(micros: u64) -> (r: u64)
    requires
        HZ > 0,
        ticks_fit(micros as nat, HZ as nat),
    ensures
        r == micros_to_ticks(micros as nat, HZ as nat),
{
    fugit::TimerDurationU64::<HZ>::micros(micros).ticks()
}

/// Relies on fugit's `Duration::<u64, 1, HZ>::secs`: its reduced factors are
/// `HZ` and 1, so it gives `secs * HZ` ticks whenever that product fits.
#[verifier::external_body]
fn fugit_secs<const HZ: u32>(secs: u64) -> (r: u64)
    requires
        HZ > 0,
        secs * HZ <= u64::MAX,
    ensures
        r == secs * HZ,
{
    fugit::TimerDurationU64::<HZ>::secs(secs).ticks()
}

/// A point on the extended time base: a tick count at `HZ` ticks per second.
#[derive(Clone, Copy, Debug)]
pub struct Instant<const HZ: u32> {
    ticks: u64,
}

/// The span between two instants, in ticks at `HZ` ticks per second.
#[derive(Clone, Copy, Debug)]
pub struct Duration<const HZ: u32> {
    ticks: u64,
}

impl<const HZ: u32> View for Instant<HZ> {
    type V = nat;

    closed spec fn view(&self) -> nat {
        self.ticks as nat
    }
}

impl<const HZ: u32> View for Duration<HZ> {
    type V = nat;

    closed spec fn view(&self) -> nat {
        self.ticks as nat
    }
}

impl<const HZ: u32> Instant<HZ> {
    pub fn from_ticks(ticks: u64) -> (r: Self)
        ensures
            r@ == ticks,
    {
        Instant { ticks }
    }

    pub fn ticks(&self) -> (r: u64)
        ensures
            r == self@,
    {
        self.ticks
    }

    /// The span from `earlier` to `self`; `earlier` must not lie after `self`.
    pub fn duration_since(self, earlier: Self) -> (r: Duration<HZ>)
        requires
            earlier@ <= self@,
        ensures
            r@ == self@ - earlier@,
    {
        Duration { ticks: self.ticks - earlier.ticks }
    }

    /// The span from `earlier` to `self`, or `None` when `earlier` lies after `self`.
    pub fn checked_duration_since(self, earlier: Self) -> (r: Option<Duration<HZ>>)
        ensures
            r is Some <==> earlier@ <= self@,
            r matches Some(d) ==> d@ == self@ - earlier@,
    {
        if earlier.ticks <= self.ticks {
            Some(Duration { ticks: self.ticks - earlier.ticks })
        } else {
            None
        }
    }

    /// Whether at least `span` has passed from `self` to `later`.
    pub fn elapsed_at_least(self, later: Self, span: Duration<HZ>) -> (r: bool)
        ensures
            r == (later@ >= self@ + span@),
    {
        later.ticks >= self.ticks && later.ticks - self.ticks >= span.ticks
    }
}

impl<const HZ: u32> Duration<HZ> {
    pub fn from_ticks(ticks: u64) -> (r: Self)
        ensures
            r@ == ticks,
    {
        Duration { ticks }
    }

    pub fn ticks(&self) -> (r: u64)
        ensures
            r == self@,
    {
        self.ticks
    }

    /// The span in whole microseconds, rounded down.
    pub fn to_micros(&self) -> (r: u64)
        requires
            HZ > 0,
            micros_fit(self@, HZ as nat),
        ensures
            r == ticks_to_micros(self@, HZ as nat),
    {
        fugit_to_micros::<HZ>(self.ticks)
    }

    /// A span of `micros` microseconds, in whole ticks rounded down.
    pub fn micros(micros: u64) -> (r: Self)
        requires
            HZ > 0,
            ticks_fit(micros as nat, HZ as nat),
        ensures
            r@ == micros_to_ticks(micros as nat, HZ as nat),
    {
        Duration { ticks: fugit_micros::<HZ>(micros) }
    }

    /// A span of `secs` seconds.
    pub fn secs(secs: u64) -> (r: Self)
        requires
            HZ > 0,
            secs * HZ <= u64::MAX,
        ensures
            r@ == secs * HZ,
    {
        Duration { ticks: fugit_secs::<HZ>(secs) }
    }
}

/// Ordering of two tick counts.
pub open spec fn order_of(a: nat, b: nat) -> Ordering {
    if a < b {
        Ordering::Less
    } else if a == b {
        Ordering::Equal
    } else {
        Ordering::Greater
    }
}

impl<const HZ: u32> PartialEq for Instant<HZ> {
    fn eq(&self, other: &Self) -> (r: bool) {
        self.ticks == other.ticks
    }
}

impl<const HZ: u32> vstd::std_specs::cmp::PartialEqSpecImpl for Instant<HZ> {
    open spec fn obeys_eq_spec() -> bool {
        true
    }

    open spec fn eq_spec(&self, other: &Self) -> bool {
        self@ == other@
    }
}

impl<const HZ: u32> PartialOrd for Instant<HZ> {
    fn partial_cmp(&self, other: &Self) -> (r: Option<Ordering>) {
        if self.ticks < other.ticks {
            Some(Ordering::Less)
        } else if self.ticks == other.ticks {
            Some(Ordering::Equal)
        } else {
            Some(Ordering::Greater)
        }
    }
}

impl<const HZ: u32> vstd::std_specs::cmp::PartialOrdSpecImpl for Instant<HZ> {
    open spec fn obeys_partial_cmp_spec() -> bool {
        true
    }

    open spec fn partial_cmp_spec(&self, other: &Self) -> Option<Ordering> {
        Some(order_of(self@, other@))
    }
}

impl<const HZ: u32> PartialEq for Duration<HZ> {
    fn eq(&self, other: &Self) -> (r: bool) {
        self.ticks == other.ticks
    }
}

impl<const HZ: u32> vstd::std_specs::cmp::PartialEqSpecImpl for Duration<HZ> {
    open spec fn obeys_eq_spec() -> bool {
        true
    }

    open spec fn eq_spec(&self, other: &Self) -> bool {
        self@ == other@
    }
}

impl<const HZ: u32> PartialOrd for Duration<HZ> {
    fn partial_cmp(&self, other: &Self) -> (r: Option<Ordering>) {
        if self.ticks < other.ticks {
            Some(Ordering::Less)
        } else if self.ticks == other.ticks {
            Some(Ordering::Equal)
        } else {
            Some(Ordering::Greater)
        }
    }
}

impl<const HZ: u32> vstd::std_specs::cmp::PartialOrdSpecImpl for Duration<HZ> {
    open spec fn obeys_partial_cmp_spec() -> bool {
        true
    }

    open spec fn partial_cmp_spec(&self, other: &Self) -> Option<Ordering> {
        Some(order_of(self@, other@))
    }
}

/// The microseconds of the span between two instants `a <= b` are the tick
/// difference times one million over the frequency, rounded down: what
/// `duration_since` followed by `to_micros` returns.
pub proof fn lemma_elapsed_micros<const HZ: u32>(a: Instant<HZ>, b: Instant<HZ>, span: Duration<HZ>)
    requires
        HZ > 0,
        a@ <= b@,
        span@ == b@ - a@,
    ensures
        ticks_to_micros(span@, HZ as nat) == (b@ - a@) * 1_000_000 / (HZ as int),
{
}

} // verus!
