//! Exponential backoff: a schedule of retry delays that doubles from a
//! minimum up to a cap, with a bounded random addition.

use vstd::arithmetic::power2::{lemma2_to64, lemma_pow2_pos, lemma_pow2_unfold, pow2};
use vstd::prelude::*;

verus! {

/// Why a backoff configuration is refused.
#[derive(Clone, Copy, Debug, PartialEq, Eq, Structural)]
pub enum InvalidBackoff {
    /// The maximum delay is zero.
    ZeroMax,
    /// The minimum delay is greater than the maximum.
    MinExceedsMax,
    /// The jitter is more than a hundred percent.
    JitterTooLarge,
}

/// The number of values a jitter sample can take: a sample `s` stands for the
/// fraction `s / SAMPLE_RANGE`.
pub const SAMPLE_RANGE: u64 = 0x1_0000_0000;

/// The parameters of a schedule. Delays are in milliseconds; the jitter is a
/// percentage of the base delay.
#[derive(Clone, Copy, Debug, PartialEq, Eq)]
pub struct ExponentialBackoff {
    min: u64,
    max: u64,
    jitter: u8,
}

/// The smaller of two numbers.
pub open spec fn least(a: int, b: int) -> int {
    if a <= b {
        a
    } else {
        b
    }
}

impl ExponentialBackoff {
    #[verifier::type_invariant]
    spec fn wf(self) -> bool {
        self.min <= self.max && self.jitter <= 100
    }

    pub closed spec fn spec_min(self) -> u64 {
        self.min
    }

    pub closed spec fn spec_max(self) -> u64 {
        self.max
    }

    pub closed spec fn spec_jitter(self) -> u8 {
        self.jitter
    }

    /// What every schedule satisfies: the minimum is at most the maximum and
    /// the jitter at most a hundred percent.
    pub open spec fn valid(self) -> bool {
        self.spec_min() <= self.spec_max() && self.spec_jitter() <= 100
    }

    /// The delay before jitter after `iterations` earlier failures: the
    /// minimum doubled that many times, capped at the maximum.
    pub open spec fn spec_base(self, iterations: nat) -> int {
        least(self.spec_min() * pow2(iterations), self.spec_max() as int)
    }

    /// The random addition to the base delay `base` for the sample `sample`:
    /// the sampled fraction of `jitter` percent of `base`, but no more than
    /// what is left under the maximum.
    pub open spec fn spec_jitter_for(self, base: int, sample: u32) -> int {
        least((base * self.spec_jitter() * sample) / (100 * SAMPLE_RANGE), self.spec_max() - base)
    }

    /// The delay after `iterations` earlier failures, for the jitter sample
    /// `sample`.
    pub open spec fn spec_delay(self, iterations: nat, sample: u32) -> int {
        self.spec_base(iterations) + self.spec_jitter_for(self.spec_base(iterations), sample)
    }

    /// Builds a schedule. Refuses, in this order, a zero maximum, a minimum
    /// above the maximum, and a jitter above a hundred percent.
    pub fn new(min: u64, max: u64, jitter: u8) -> (r: Result<ExponentialBackoff, InvalidBackoff>)
        ensures
            r is Ok <==> (max != 0 && min <= max && jitter <= 100),
            r matches Ok(b) ==> b.spec_min() == min && b.spec_max() == max && b.spec_jitter()
                == jitter && b.valid(),
            r matches Err(e) ==> e == (if max == 0 {
                InvalidBackoff::ZeroMax
            } else if min > max {
                InvalidBackoff::MinExceedsMax
            } else {
                InvalidBackoff::JitterTooLarge
            }),
    {
        if max == 0 {
            Err(InvalidBackoff::ZeroMax)
        } else if min > max {
            Err(InvalidBackoff::MinExceedsMax)
        } else if jitter > 100 {
            Err(InvalidBackoff::JitterTooLarge)
        } else {
            Ok(ExponentialBackoff { min, max, jitter })
        }
    }

    pub fn min(&self) -> (r: u64)
        ensures
            r == self.spec_min(),
    {
        self.min
    }

    pub fn max(&self) -> (r: u64)
        ensures
            r == self.spec_max(),
    {
        self.max
    }

    pub fn jitter(&self) -> (r: u8)
        ensures
            r == self.spec_jitter(),
    {
        self.jitter
    }

    /// The base delay after `iterations` earlier failures.
    pub fn base(&self, iterations: u32) -> (r: u64)
        ensures
            r == self.spec_base(iterations as nat),
    {
        proof {
            use_type_invariant(self);
            lemma2_to64();
        }
        let mut b: u64 = self.min;
        let mut i: u32 = 0;
        while i < iterations && b != 0 && b < self.max
            invariant
                i <= iterations,
                self.valid(),
                self.max == self.spec_max(),
                b == self.spec_base(i as nat),
            decreases iterations - i,
        {
            proof {
                lemma_pow2_unfold((i + 1) as nat);
                assert(self.spec_min() * (2 * pow2(i as nat)) == 2 * (self.spec_min() * pow2(
                    i as nat,
                ))) by (nonlinear_arith);
            }
            b = if b > self.max / 2 {
                self.max
            } else {
                b * 2
            };
            i = i + 1;
        }
        proof {
            if i < iterations {
                if b == self.max {
                    lemma_base_saturates(*self, i as nat);
                } else {
                    lemma_pow2_pos(i as nat);
                    assert(self.spec_min() == 0) by (nonlinear_arith)
                        requires
                            self.spec_min() * pow2(i as nat) == 0,
                            pow2(i as nat) > 0,
                            self.spec_min() >= 0,
                    ;
                    assert(self.spec_min() * pow2(iterations as nat) == 0) by (nonlinear_arith)
                        requires
                            self.spec_min() == 0,
                    ;
                }
            }
        }
        b
    }

    /// The delay after `iterations` earlier failures, for the jitter sample
    /// `sample`.
    pub fn delay(&self, iterations: u32, sample: u32) -> (r: u64)
        ensures
            r == self.spec_delay(iterations as nat, sample),
            self.spec_base(iterations as nat) <= r <= self.spec_max(),
    {
        proof {
            use_type_invariant(self);
        }
        let base = self.base(iterations);
        let room: u64 = self.max - base;
        let jitter: u128 = self.jitter as u128;
        assert(base * jitter <= 0xffff_ffff_ffff_ffff * 100 && base * jitter * sample
            <= 0xffff_ffff_ffff_ffff * 100 * 0xffff_ffff) by (nonlinear_arith)
            requires
                0 <= base <= 0xffff_ffff_ffff_ffff,
                0 <= jitter <= 100,
                0 <= sample <= 0xffff_ffff,
        ;
        let scaled: u128 = (base as u128 * jitter * (sample as u128)) / (100 * (SAMPLE_RANGE as u128));
        let extra: u64 = if scaled > room as u128 {
            room
        } else {
            scaled as u64
        };
        base + extra
    }
}

/// The number of failures counted after one more: one more than `iterations`,
/// except that the count stays at the largest value it can hold.
pub open spec fn spec_next_iterations(iterations: u32) -> u32 {
    if iterations < u32::MAX {
        (iterations + 1) as u32
    } else {
        iterations
    }
}

/// The cursor of one retry loop over a schedule: how many delays it has
/// handed out. Each loop has its own.
#[derive(Clone, Copy, Debug, PartialEq, Eq)]
pub struct ExponentialBackoffStream {
    backoff: ExponentialBackoff,
    iterations: u32,
}

impl ExponentialBackoffStream {
    pub closed spec fn spec_backoff(self) -> ExponentialBackoff {
        self.backoff
    }

    pub closed spec fn spec_iterations(self) -> u32 {
        self.iterations
    }

    pub fn backoff(&self) -> (r: ExponentialBackoff)
        ensures
            r == self.spec_backoff(),
    {
        self.backoff
    }

    pub fn iterations(&self) -> (r: u32)
        ensures
            r == self.spec_iterations(),
    {
        self.iterations
    }

    /// Hands out the next delay of the schedule, for the jitter sample
    /// `sample`, and advances the cursor.
    pub fn next_delay(&mut self, sample: u32) -> (d: u64)
        ensures
            d == old(self).spec_backoff().spec_delay(old(self).spec_iterations() as nat, sample),
            d <= old(self).spec_backoff().spec_max(),
            final(self).spec_backoff() == old(self).spec_backoff(),
            final(self).spec_iterations() == spec_next_iterations(old(self).spec_iterations()),
    {
        let d = self.backoff.delay(self.iterations, sample);
        if self.iterations < u32::MAX {
            self.iterations = self.iterations + 1;
        }
        d
    }
}

impl ExponentialBackoff {
    /// A fresh cursor at the start of this schedule.
    pub fn stream(&self) -> (s: ExponentialBackoffStream)
        ensures
            s.spec_backoff() == *self,
            s.spec_iterations() == 0,
    {
        ExponentialBackoffStream { backoff: *self, iterations: 0 }
    }
}

impl Default for ExponentialBackoff {
    /// The schedule of all zeros: every delay is zero.
    fn default() -> (b: ExponentialBackoff)
        ensures
            b.spec_min() == 0,
            b.spec_max() == 0,
            b.spec_jitter() == 0,
    {
        ExponentialBackoff { min: 0, max: 0, jitter: 0 }
    }
}

/// Every delay lies between its base delay and the maximum, and is at most
/// twice its base delay.
pub proof fn lemma_delay_bounds(b: ExponentialBackoff, iterations: nat, sample: u32)
    requires
        b.valid(),
    ensures
        0 <= b.spec_base(iterations) <= b.spec_delay(iterations, sample) <= b.spec_max(),
        b.spec_delay(iterations, sample) <= 2 * b.spec_base(iterations),
{
    let base = b.spec_base(iterations);
    let j = b.spec_jitter() as int;
    let s = sample as int;
    lemma_pow2_pos(iterations);
    assert(b.spec_min() * pow2(iterations) >= 0) by (nonlinear_arith)
        requires
            b.spec_min() >= 0,
            pow2(iterations) > 0,
    ;
    assert(0 <= base * j * s <= base * (100 * SAMPLE_RANGE)) by (nonlinear_arith)
        requires
            0 <= base,
            0 <= j <= 100,
            0 <= s < SAMPLE_RANGE,
    ;
    vstd::arithmetic::div_mod::lemma_div_is_ordered(
        base * j * s,
        base * (100 * SAMPLE_RANGE),
        100 * SAMPLE_RANGE,
    );
    vstd::arithmetic::div_mod::lemma_div_is_ordered(0, base * j * s, 100 * SAMPLE_RANGE);
    vstd::arithmetic::div_mod::lemma_div_multiples_vanish(base, 100 * SAMPLE_RANGE);
    assert(base * (100 * SAMPLE_RANGE) == (100 * SAMPLE_RANGE) * base) by (nonlinear_arith);
}

/// The base delay doubles with each failure until it reaches the maximum.
pub proof fn lemma_base_step(b: ExponentialBackoff, iterations: nat)
    requires
        b.valid(),
    ensures
        b.spec_base(iterations + 1) == least(2 * b.spec_base(iterations), b.spec_max() as int),
{
    lemma_pow2_unfold(iterations + 1);
    lemma_pow2_pos(iterations);
    assert(b.spec_min() * (2 * pow2(iterations)) == 2 * (b.spec_min() * pow2(iterations)))
        by (nonlinear_arith);
    assert(b.spec_min() * pow2(iterations) >= 0) by (nonlinear_arith)
        requires
            b.spec_min() >= 0,
            pow2(iterations) > 0,
    ;
}

/// A later delay of a schedule is never shorter than an earlier one, whatever
/// the jitter samples.
pub proof fn lemma_delays_non_decreasing(
    b: ExponentialBackoff,
    earlier: nat,
    later: nat,
    sample1: u32,
    sample2: u32,
)
    requires
        b.valid(),
        earlier < later,
    ensures
        b.spec_delay(earlier, sample1) <= b.spec_delay(later, sample2),
{
    lemma_delay_bounds(b, earlier, sample1);
    lemma_base_step(b, earlier);
    lemma_base_monotonic(b, earlier + 1, later);
    lemma_delay_bounds(b, later, sample2);
}

/// The base delay does not decrease with the number of failures.
pub proof fn lemma_base_monotonic(b: ExponentialBackoff, earlier: nat, later: nat)
    requires
        b.valid(),
        earlier <= later,
    ensures
        b.spec_base(earlier) <= b.spec_base(later),
{
    lemma_pow2_monotonic(earlier, later);
    assert(b.spec_min() * pow2(earlier) <= b.spec_min() * pow2(later)) by (nonlinear_arith)
        requires
            pow2(earlier) <= pow2(later),
            b.spec_min() >= 0,
    ;
}

/// Two delays that one cursor hands out in a row do not decrease, whatever
/// the jitter samples, also once the cursor has stopped counting.
pub proof fn lemma_consecutive_delays_non_decreasing(
    b: ExponentialBackoff,
    iterations: u32,
    sample1: u32,
    sample2: u32,
)
    requires
        b.valid(),
    ensures
        b.spec_delay(iterations as nat, sample1) <= b.spec_delay(
            spec_next_iterations(iterations) as nat,
            sample2,
        ),
{
    if iterations < u32::MAX {
        lemma_delays_non_decreasing(
            b,
            iterations as nat,
            (iterations + 1) as nat,
            sample1,
            sample2,
        );
    } else {
        let n = iterations as nat;
        lemma2_to64();
        lemma_pow2_monotonic(64, n);
        lemma_delay_bounds(b, n, sample1);
        lemma_delay_bounds(b, n, sample2);
        if b.spec_min() == 0 {
            assert(b.spec_min() * pow2(n) == 0) by (nonlinear_arith)
                requires
                    b.spec_min() == 0,
            ;
        } else {
            assert(b.spec_min() * pow2(n) >= 0x1_0000_0000_0000_0000) by (nonlinear_arith)
                requires
                    b.spec_min() >= 1,
                    pow2(n) >= 0x1_0000_0000_0000_0000,
            ;
        }
    }
}

/// Once the base delay has reached the maximum it stays there.
pub proof fn lemma_base_saturates(b: ExponentialBackoff, n: nat)
    requires
        b.valid(),
        b.spec_base(n) == b.spec_max(),
    ensures
        forall|k: nat| k >= n ==> b.spec_base(k) == b.spec_max(),
{
    assert forall|k: nat| k >= n implies b.spec_base(k) == b.spec_max() by {
        lemma_pow2_monotonic(n, k);
        assert(b.spec_min() * pow2(n) <= b.spec_min() * pow2(k)) by (nonlinear_arith)
            requires
                pow2(n) <= pow2(k),
                b.spec_min() >= 0,
        ;
    }
}

/// Powers of two do not decrease with the exponent.
pub proof fn lemma_pow2_monotonic(a: nat, b: nat)
    requires
        a <= b,
    ensures
        pow2(a) <= pow2(b),
        pow2(a) > 0,
    decreases b - a,
{
    lemma_pow2_pos(a);
    if a < b {
        lemma_pow2_monotonic(a, (b - 1) as nat);
        lemma_pow2_unfold(b);
    }
}

} // verus!
