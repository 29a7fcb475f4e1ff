//! Exponential backoff with jitter between connection attempts.
//!
//! The policy is a value of its own: the delay before a retry depends on the
//! number of failures so far, the two configured bounds and one random draw.
//! All durations are whole milliseconds.

use rand::Rng;
use vstd::prelude::*;

verus! {

/// Two to the power `n`.
pub open spec fn pow2(n: nat) -> nat
    decreases n,
{
    if n == 0 {
        1
    } else {
        2 * pow2((n - 1) as nat)
    }
}

/// The smaller of two numbers.
pub open spec fn min_nat(a: nat, b: nat) -> nat {
    if a <= b {
        a
    } else {
        b
    }
}

/// The base of the sleep that follows failed attempt number `attempt`
/// (counted from one): the initial backoff doubled once per earlier failure,
/// capped at the maximum.
pub open spec fn backoff_base(initial: nat, max: nat, attempt: nat) -> nat
    recommends
        attempt >= 1,
{
    min_nat(initial * pow2((attempt - 1) as nat), max)
}

/// How long to sleep before the next attempt.
#[derive(Debug, Clone, Copy, PartialEq, Eq, Structural)]
pub struct Delay {
    /// The deterministic part.
    pub base: u64,
    /// The random part.
    pub jitter: u64,
}

impl Delay {
    /// The whole sleep, in milliseconds.
    pub open spec fn total(self) -> nat {
        (self.base + self.jitter) as nat
    }

    /// The whole sleep, in milliseconds.
    pub fn total_millis(&self) -> (t: u128)
        ensures
            t == self.total(),
    {
        (self.base as u128) + (self.jitter as u128)
    }
}

/// The state of the policy between two attempts.
#[derive(Debug, Clone, Copy, PartialEq, Eq, Structural)]
pub struct Backoff {
    /// The backoff of the coming round.
    pub current: u64,
    /// The cap on every round.
    pub max: u64,
}

impl Backoff {
    /// The base of the coming sleep.
    pub open spec fn base(self) -> u64 {
        if self.current <= self.max {
            self.current
        } else {
            self.max
        }
    }

    /// Whether `jitter` is a draw that the coming round allows: below the
    /// current backoff, or zero where the current backoff is zero and leaves
    /// nothing to draw from.
    pub open spec fn admits(self, jitter: u64) -> bool {
        if self.current == 0 {
            jitter == 0
        } else {
            jitter < self.current
        }
    }

    /// The policy after one more failure: the backoff doubled, capped at the
    /// maximum.
    pub open spec fn advanced(self) -> Backoff {
        Backoff {
            current: if 2 * self.current <= self.max {
                (2 * self.current) as u64
            } else {
                self.max
            },
            max: self.max,
        }
    }

    /// The policy after `failures` failed attempts.
    pub open spec fn after(initial: u64, max: u64, failures: nat) -> Backoff
        decreases failures,
    {
        if failures == 0 {
            Backoff { current: initial, max }
        } else {
            Backoff::after(initial, max, (failures - 1) as nat).advanced()
        }
    }

    /// The policy before the first attempt.
    pub fn new(initial: u64, max: u64) -> (b: Backoff)
        ensures
            b == Backoff::after(initial, max, 0),
    {
        Backoff { current: initial, max }
    }

    /// The base of the coming sleep.
    pub fn base_millis(&self) -> (b: u64)
        ensures
            b == self.base(),
    {
        if self.current <= self.max {
            self.current
        } else {
            self.max
        }
    }

    /// The delay for the coming round with the given draw, and the step to
    /// the next round.
    pub fn next_delay(&mut self, jitter: u64) -> (d: Delay)
        ensures
            d.base == old(self).base(),
            d.jitter == jitter,
            *final(self) == old(self).advanced(),
    {
        let base = self.base_millis();
        let next = if self.current > self.max / 2 {
            self.max
        } else {
            2 * self.current
        };
        self.current = next;
        Delay { base, jitter }
    }

    /// Draws the jitter for the coming round and steps to the next one.
    pub fn retry_delay(&mut self) -> (d: Delay)
        ensures
            d.base == old(self).base(),
            old(self).admits(d.jitter),
            *final(self) == old(self).advanced(),
    {
        let jitter = if self.current == 0 {
            0
        } else {
            draw_below(self.current)
        };
        self.next_delay(jitter)
    }
}

/// Calls `rand::rng().random_range(0..bound)`: a number drawn from the
/// thread's generator. All that is claimed is that it lies below `bound`;
/// the empty range, on which the call panics, is excluded.
#[verifier::external_body]
fn draw_below(bound: u64) -> (jitter: u64)
    requires
        bound > 0,
    ensures
        jitter < bound,
{
    rand::rng().random_range(0..bound)
}

/// Doubling the exponent doubles the power.
proof fn lemma_scaled_pow2(initial: nat, n: nat)
    ensures
        initial * pow2(n + 1) == 2 * (initial * pow2(n)),
{
    assert(pow2(n + 1) == 2 * pow2(n));
    assert(initial * (2 * pow2(n)) == 2 * (initial * pow2(n))) by (nonlinear_arith);
}

/// After at least one failure the current backoff is the capped power.
pub proof fn lemma_current_after(initial: u64, max: u64, failures: nat)
    requires
        failures >= 1,
    ensures
        Backoff::after(initial, max, failures).current == min_nat(
            initial as nat * pow2(failures),
            max as nat,
        ),
        Backoff::after(initial, max, failures).max == max,
    decreases failures,
{
    let i = initial as nat;
    if failures == 1 {
        assert(Backoff::after(initial, max, 0) == Backoff { current: initial, max });
        assert(pow2(1) == 2 * pow2(0));
        assert(i * pow2(1) == 2 * i) by (nonlinear_arith)
            requires
                pow2(1) == 2,
        ;
    } else {
        lemma_current_after(initial, max, (failures - 1) as nat);
        lemma_scaled_pow2(i, (failures - 1) as nat);
    }
}

/// The backoff sequence. The sleep after failed attempt `attempt` has the
/// base `min(initial * 2^(attempt - 1), max)`. Where both bounds are
/// positive, and the initial backoff does not exceed the maximum or the
/// attempt is not the first, every admitted jitter lies below that base.
pub proof fn lemma_backoff_sequence(initial: u64, max: u64, attempt: nat, jitter: u64)
    requires
        attempt >= 1,
    ensures
        Backoff::after(initial, max, (attempt - 1) as nat).base() == backoff_base(
            initial as nat,
            max as nat,
            attempt,
        ),
        Backoff::after(initial, max, (attempt - 1) as nat).admits(jitter) && initial > 0 && max
            > 0 && (initial <= max || attempt >= 2) ==> jitter < backoff_base(
            initial as nat,
            max as nat,
            attempt,
        ),
{
    let i = initial as nat;
    if attempt == 1 {
        assert(Backoff::after(initial, max, 0) == Backoff { current: initial, max });
        assert(i * pow2(0) == i) by (nonlinear_arith)
            requires
                pow2(0) == 1,
        ;
    } else {
        lemma_current_after(initial, max, (attempt - 1) as nat);
        lemma_pow2_positive((attempt - 1) as nat);
        let p = pow2((attempt - 1) as nat);
        assert(i > 0 ==> i * p > 0) by (nonlinear_arith)
            requires
                p > 0,
        ;
    }
}

/// Every power of two is positive.
pub proof fn lemma_pow2_positive(n: nat)
    ensures
        pow2(n) > 0,
    decreases n,
{
    if n > 0 {
        lemma_pow2_positive((n - 1) as nat);
    }
}

} // verus!
