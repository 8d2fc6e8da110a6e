//! Bit-timing calculator: derives the integer clock divider from the input
//! clock frequency, the requested bus frequency and the quanta per bit time.
//!
//! The calculator refuses any request it cannot satisfy exactly: a quotient
//! below one or at or above 512 is out of the register's range, and a
//! quotient that is not a whole number is reported as a rounding error —
//! carrying the rate the truncated divider would achieve — instead of being
//! silently applied.

use vstd::prelude::*;
use vstd::arithmetic::div_mod::{
    lemma_div_by_self, lemma_div_is_ordered, lemma_div_nonincreasing, lemma_fundamental_div_mod,
    lemma_fundamental_div_mod_converse, lemma_multiply_divide_lt,
};
use vstd::arithmetic::mul::lemma_mul_strictly_positive;
use crate::ConfigurationError;

verus! {

/// The outcome the calculator owes for a given input triple: the divider
/// `c / (f * q)` when it is an exact integer in range, and the precise
/// error otherwise.
pub open spec fn divider_outcome(c: u32, f: u32, q: u32) -> Result<u32, ConfigurationError> {
    let fq = (f as int) * (q as int);
    if f == 0 {
        Result::Err(ConfigurationError::StoppedOutputClock)
    } else if q == 0 {
        Result::Err(ConfigurationError::ZeroQuanta)
    } else if (c as int) < fq {
        Result::Err(ConfigurationError::ZeroDivider)
    } else if (c as int) >= 512 * fq {
        Result::Err(ConfigurationError::InvalidDivider(((c as int) / fq) as u32))
    } else {
        let d = (c as int) / fq;
        if (c as int) % fq == 0 {
            Result::Ok(d as u32)
        } else {
            Result::Err(ConfigurationError::BitTimeRounding(((c as int) / (d * (q as int))) as u32))
        }
    }
}

/// Compute the nominal bit-rate divider for input clock `c` Hz, requested bus
/// frequency `f` Hz and `q` quanta per bit time.
///
/// Returns the divider `d` with `1 <= d <= 511` such that `c == d * f * q`
/// exactly, or the error that rules the request out. A quotient that is not
/// an exact integer is refused as `BitTimeRounding`, carrying the output
/// frequency the truncated divider would achieve.
pub fn compute_divider(c: u32, f: u32, q: u32) -> (r: Result<u32, ConfigurationError>)
    ensures
        r == divider_outcome(c, f, q),
{
    if f == 0 {
        return Result::Err(ConfigurationError::StoppedOutputClock);
    }
    if q == 0 {
        return Result::Err(ConfigurationError::ZeroQuanta);
    }
    proof {
        assert(0 < (f as int) * (q as int) <= 0xffff_ffff * 0xffff_ffff) by (nonlinear_arith)
            requires
                0 < f as int <= 0xffff_ffff,
                0 < q as int <= 0xffff_ffff,
        ;
    }
    let fq: u64 = (f as u64) * (q as u64);
    let c64: u64 = c as u64;
    if c64 < fq {
        return Result::Err(ConfigurationError::ZeroDivider);
    }
    let d: u64 = c64 / fq;
    proof {
        lemma_div_is_ordered(fq as int, c64 as int, fq as int);
        lemma_div_by_self(fq as int);
        lemma_div_nonincreasing(c64 as int, fq as int);
        lemma_fundamental_div_mod(c64 as int, fq as int);
        assert(d >= 512 ==> c64 >= 512 * fq) by (nonlinear_arith)
            requires
                fq > 0,
                c64 as int == (fq as int) * ((c64 as int) / (fq as int)) + (c64 as int) % (fq as int),
                (c64 as int) % (fq as int) >= 0,
                d == (c64 as int) / (fq as int),
        ;
        assert(d < 512 ==> c64 < 512 * fq) by (nonlinear_arith)
            requires
                fq > 0,
                c64 as int == (fq as int) * ((c64 as int) / (fq as int)) + (c64 as int) % (fq as int),
                (c64 as int) % (fq as int) < fq as int,
                d == (c64 as int) / (fq as int),
        ;
    }
    if d >= 512 {
        return Result::Err(ConfigurationError::InvalidDivider(d as u32));
    }
    if c64 % fq != 0 {
        proof {
            assert(0 < (d as int) * (q as int) <= 511 * 0xffff_ffff) by (nonlinear_arith)
                requires
                    1 <= d as int <= 511,
                    0 < q as int <= 0xffff_ffff,
            ;
        }
        let dq: u64 = d * (q as u64);
        let achieved: u64 = c64 / dq;
        proof {
            lemma_div_nonincreasing(c64 as int, dq as int);
        }
        Result::Err(ConfigurationError::BitTimeRounding(achieved as u32))
    } else {
        Result::Ok(d as u32)
    }
}

/// Law: an input triple whose quotient `c / (f * q)` is an exact integer
/// between 1 and 511 is accepted, and the returned divider is that integer.
pub proof fn lemma_exact_divider_accepted(c: u32, f: u32, q: u32, d: u32)
    requires
        f > 0,
        q > 0,
        1 <= d <= 511,
        c as int == (d as int) * (f as int) * (q as int),
    ensures
        divider_outcome(c, f, q) == Result::<u32, ConfigurationError>::Ok(d),
{
    let fq = (f as int) * (q as int);
    assert(fq > 0 && c as int == (d as int) * fq && fq <= c as int && (c as int) < 512 * fq)
        by (nonlinear_arith)
        requires
            f > 0,
            q > 0,
            1 <= d <= 511,
            c as int == (d as int) * (f as int) * (q as int),
            fq == (f as int) * (q as int),
    ;
    lemma_fundamental_div_mod_converse(c as int, fq, d as int, 0);
}

/// Law: whenever the calculator accepts, the divider is in range, `f * q`
/// divides the clock exactly, and the achieved output frequency under
/// integer division is exactly the request — an accepted configuration is
/// never silently wrong.
pub proof fn lemma_accepted_divider_is_exact(c: u32, f: u32, q: u32, d: u32)
    requires
        divider_outcome(c, f, q) == Result::<u32, ConfigurationError>::Ok(d),
    ensures
        f > 0,
        q > 0,
        1 <= d <= 511,
        d == (c as int) / ((f as int) * (q as int)),
        (c as int) % ((f as int) * (q as int)) == 0,
        c as int == (d as int) * (f as int) * (q as int),
        (c as int) / ((d as int) * (q as int)) == f as int,
{
    let fq = (f as int) * (q as int);
    let dq = (d as int) * (q as int);
    lemma_mul_strictly_positive(f as int, q as int);
    lemma_div_is_ordered(fq, c as int, fq);
    lemma_div_by_self(fq);
    lemma_multiply_divide_lt(c as int, fq, 512);
    lemma_fundamental_div_mod(c as int, fq);
    assert(c as int == (d as int) * (f as int) * (q as int) && c as int == (f as int) * dq
        && dq > 0) by (nonlinear_arith)
        requires
            f > 0,
            q > 0,
            d >= 1,
            fq == (f as int) * (q as int),
            dq == (d as int) * (q as int),
            c as int == fq * (d as int) + 0,
    ;
    lemma_fundamental_div_mod_converse(c as int, dq, f as int, 0);
}

/// Law: an input triple in divider range whose quotient `c / (f * q)` is not
/// an exact integer is always rejected with a rounding error that carries
/// the rate the truncated divider would achieve — never a silently-wrong
/// divider.
pub proof fn lemma_inexact_division_rejected(c: u32, f: u32, q: u32)
    requires
        f > 0,
        q > 0,
        (f as int) * (q as int) <= c as int,
        (c as int) < 512 * ((f as int) * (q as int)),
        (c as int) % ((f as int) * (q as int)) != 0,
    ensures
        ({
            let fq = (f as int) * (q as int);
            let d = (c as int) / fq;
            divider_outcome(c, f, q) == Result::<u32, ConfigurationError>::Err(
                ConfigurationError::BitTimeRounding(((c as int) / (d * (q as int))) as u32),
            )
        }),
{
}

/// Law: a requested bus frequency of zero is always refused as a stopped
/// output clock, whatever the clock and quanta inputs are.
pub proof fn lemma_stopped_clock_rejected(c: u32, q: u32)
    ensures
        divider_outcome(c, 0, q) == Result::<u32, ConfigurationError>::Err(
            ConfigurationError::StoppedOutputClock,
        ),
{
}

/// Law: a clock sitting exactly at 512 times `f * q` is rejected at the upper
/// divider edge, and a clock below `f * q` is rejected as a zero divider.
pub proof fn lemma_divider_boundaries(c: u32, f: u32, q: u32)
    requires
        f > 0,
        q > 0,
    ensures
        c as int == 512 * (f as int) * (q as int) ==> divider_outcome(c, f, q)
            == Result::<u32, ConfigurationError>::Err(ConfigurationError::InvalidDivider(512)),
        (c as int) < (f as int) * (q as int) ==> divider_outcome(c, f, q)
            == Result::<u32, ConfigurationError>::Err(ConfigurationError::ZeroDivider),
{
    let fq = (f as int) * (q as int);
    if c as int == 512 * (f as int) * (q as int) {
        assert(fq > 0 && c as int == 512 * fq + 0 && c as int >= 512 * fq) by (nonlinear_arith)
            requires
                f > 0,
                q > 0,
                fq == (f as int) * (q as int),
                c as int == 512 * (f as int) * (q as int),
        ;
        lemma_fundamental_div_mod_converse(c as int, fq, 512, 0);
    }
}

} // verus!
