//! The sampling policy: which spans collect data.
//!
//! The decision is a function of the configured rate and of the span's id
//! alone. A rate of zero samples every span; any other rate samples the
//! spans whose id the rate divides.

use vstd::prelude::*;
use vstd::arithmetic::power::pow;
use vstd::arithmetic::power2::{is_pow2, is_pow2_equiv, is_pow2_exists, pow2};
use vstd::arithmetic::power2::{lemma2_to64, lemma2_to64_rest, lemma_pow2_strictly_increases};
use vstd::bits::{lemma_u64_low_bits_mask_is_mod, low_bits_mask};
use vstd::std_specs::convert::FromSpecImpl;

verus! {

/// Whether a span with the given id is sampled at the given rate.
pub open spec fn sampled(rate: u64, span_id: u64) -> bool {
    rate == 0 || span_id % rate == 0
}

/// A sampling rate, in the form in which it is cheapest to apply.
#[derive(Debug, Clone, Copy, PartialEq, Eq, Structural)]
pub enum SampleRate {
    /// Every span is sampled.
    All,
    /// The rate is this power of two: the decision is a mask test.
    Pow2(u64),
    /// The rate is this number, which is no power of two: the decision is a
    /// remainder test.
    Modulo(u64),
}

impl SampleRate {
    /// Each variant holds a rate of its own kind.
    pub open spec fn well_formed(&self) -> bool {
        match *self {
            SampleRate::All => true,
            SampleRate::Pow2(x) => is_pow2(x as int),
            SampleRate::Modulo(x) => x != 0 && !is_pow2(x as int),
        }
    }

    /// The rate as it was configured.
    pub open spec fn rate(&self) -> u64 {
        match *self {
            SampleRate::All => 0,
            SampleRate::Pow2(x) => x,
            SampleRate::Modulo(x) => x,
        }
    }

    /// The form of a configured rate.
    pub open spec fn of_rate(rate: u64) -> SampleRate {
        if rate == 0 {
            SampleRate::All
        } else if is_pow2(rate as int) {
            SampleRate::Pow2(rate)
        } else {
            SampleRate::Modulo(rate)
        }
    }

    /// The test that each variant applies to a span's id.
    pub open spec fn decides(&self, span_id: u64) -> bool {
        match *self {
            SampleRate::All => true,
            SampleRate::Pow2(x) => span_id & ((x - 1) as u64) == 0,
            SampleRate::Modulo(x) => span_id % x == 0,
        }
    }

    /// Whether the span with the given id is sampled.
    pub fn sample(&self, span_id: u64) -> (decision: bool)
        requires
            self.well_formed(),
        ensures
            decision == self.decides(span_id),
            decision == sampled(self.rate(), span_id),
    {
        proof {
            lemma_decides_by_rate(*self, span_id);
        }
        match self {
            SampleRate::All => true,
            SampleRate::Pow2(x) => {
                proof {
                    lemma_power_of_two_test(*x);
                }
                span_id & (*x - 1) == 0
            },
            SampleRate::Modulo(x) => span_id % *x == 0,
        }
    }
}

/// A number is a power of two exactly when it is not zero and shares no bit
/// with its predecessor.
pub proof fn lemma_power_of_two_test(value: u64)
    ensures
        is_pow2(value as int) <==> value != 0 && value & ((value - 1) as u64) == 0,
    decreases value,
{
    reveal(is_pow2);
    if value == 0 {
    } else if value == 1 {
        assert(1u64 & 0u64 == 0) by (bit_vector);
    } else {
        let half: u64 = value / 2;
        assert(value & ((value - 1) as u64) == 0 <==> value % 2 == 0 && (value / 2) & ((value / 2
            - 1) as u64) == 0) by (bit_vector)
            requires
                value > 1,
        ;
        lemma_power_of_two_test(half);
    }
}

/// Whether `value` is a power of two.
pub fn is_power_of_two(value: u64) -> (yes: bool)
    ensures
        yes == is_pow2(value as int),
{
    proof {
        lemma_power_of_two_test(value);
    }
    value != 0 && value & (value - 1) == 0
}

/// For a rate that is a power of two, the bits of an id under the mask are
/// its remainder by the rate: the mask test and the remainder test agree.
pub proof fn lemma_mask_is_remainder(rate: u64, span_id: u64)
    requires
        is_pow2(rate as int),
    ensures
        rate != 0,
        span_id & ((rate - 1) as u64) == span_id % rate,
{
    is_pow2_equiv(rate as int);
    assert(is_pow2_exists(rate as int));
    let e = choose|e: nat| pow(2, e) == rate as int;
    assert(pow2(e) == rate);
    lemma2_to64();
    lemma2_to64_rest();
    if e >= 64 {
        if e > 64 {
            lemma_pow2_strictly_increases(64, e);
        }
        assert(false);
    }
    lemma_u64_low_bits_mask_is_mod(span_id, e);
    assert(low_bits_mask(e) == rate - 1);
}

/// The decision is a function of the rate and of the id alone: whatever its
/// form, a well-formed rate decides as [`sampled`] says.
pub proof fn lemma_decides_by_rate(rate: SampleRate, span_id: u64)
    requires
        rate.well_formed(),
    ensures
        rate.decides(span_id) == sampled(rate.rate(), span_id),
{
    match rate {
        SampleRate::All => {},
        SampleRate::Pow2(x) => {
            lemma_mask_is_remainder(x, span_id);
        },
        SampleRate::Modulo(x) => {},
    }
}

/// The form of a configured rate is well formed and stands for that rate.
pub proof fn lemma_of_rate(rate: u64)
    ensures
        SampleRate::of_rate(rate).well_formed(),
        SampleRate::of_rate(rate).rate() == rate,
{
    reveal(is_pow2);
}

impl From<u64> for SampleRate {
    fn from(value: u64) -> (rate: SampleRate)
        ensures
            rate.well_formed(),
            rate.rate() == value,
    {
        proof {
            lemma_of_rate(value);
        }
        if value == 0 {
            SampleRate::All
        } else if is_power_of_two(value) {
            SampleRate::Pow2(value)
        } else {
            SampleRate::Modulo(value)
        }
    }
}

impl FromSpecImpl<u64> for SampleRate {
    open spec fn obeys_from_spec() -> bool {
        true
    }

    open spec fn from_spec(value: u64) -> SampleRate {
        SampleRate::of_rate(value)
    }
}

} // verus!
