//! Interest accrued on a deposit, in whole lamports.
//!
//! Interest is simple, not compound: the principal times the yearly rate
//! times the fraction of a year that has passed. The computation is exact
//! integer arithmetic. Rounding policy: the exact quotient is truncated
//! toward zero, so a fraction of a lamport is never paid; a clock that has
//! not advanced past the deposit pays nothing; a result beyond the 64-bit
//! range is reported as `u64::MAX`.

use vstd::prelude::*;
use vstd::arithmetic::div_mod::{
    lemma_div_denominator, lemma_div_is_ordered, lemma_div_multiples_vanish, lemma_div_pos_is_pos,
    lemma_fundamental_div_mod, lemma_hoist_over_denominator,
};

verus! {

/// Basis points in a whole: a rate of 10000 is 100% a year.
pub const BASIS_POINTS: u64 = 10_000;

/// Seconds in a year of 365 days.
pub const SECONDS_PER_YEAR: u64 = 31_536_000;

/// One year at 100%, in basis-point seconds: the divisor of the interest formula.
pub const BASIS_POINT_SECONDS_PER_YEAR: u64 = 315_360_000_000;

/// Seconds between the deposit and the present; negative if the clock stood
/// before the deposit.
pub open spec fn elapsed_seconds(deposit_time: i64, now: i64) -> int {
    now - deposit_time
}

/// Interest on `principal` at `rate_bp` basis points a year after `elapsed`
/// seconds, truncated to whole lamports and without an upper bound.
pub open spec fn accrued(principal: nat, rate_bp: nat, elapsed: int) -> int {
    if elapsed <= 0 {
        0
    } else {
        (principal * rate_bp * elapsed) / (BASIS_POINT_SECONDS_PER_YEAR as int)
    }
}

/// The interest that `accrued_interest` reports: the accrued amount, capped
/// at the largest 64-bit value.
pub open spec fn interest_due(principal: u64, rate_bp: u64, deposit_time: i64, now: i64) -> int {
    let exact = accrued(principal as nat, rate_bp as nat, elapsed_seconds(deposit_time, now));
    if exact > u64::MAX {
        u64::MAX as int
    } else {
        exact
    }
}

/// Splits the quotient of a product by the quotient and remainder of one factor.
proof fn lemma_split_quotient(weighted: int, elapsed: int, divisor: int)
    requires
        0 <= weighted,
        0 <= elapsed,
        0 < divisor,
    ensures
        (weighted * elapsed) / divisor == (weighted / divisor) * elapsed + ((weighted % divisor)
            * elapsed) / divisor,
{
    let q = weighted / divisor;
    let r = weighted % divisor;
    lemma_fundamental_div_mod(weighted, divisor);
    assert(weighted * elapsed == r * elapsed + (q * elapsed) * divisor) by (nonlinear_arith)
        requires
            weighted == divisor * q + r,
    ;
    lemma_hoist_over_denominator(r * elapsed, q * elapsed, divisor as nat);
}

/// The interest owed on `principal`, deposited at `deposit_time`, at
/// `rate_bp` basis points a year, when the clock reads `now`.
pub fn accrued_interest(principal: u64, rate_bp: u64, deposit_time: i64, now: i64) -> (interest:
    u64)
    ensures
        interest == interest_due(principal, rate_bp, deposit_time, now),
{
    if now <= deposit_time {
        return 0;
    }
    let elapsed: u128 = (now as i128 - deposit_time as i128) as u128;
    assert(principal * rate_bp <= 0xffff_ffff_ffff_ffff * 0xffff_ffff_ffff_ffff)
        by (nonlinear_arith);
    let weighted: u128 = (principal as u128) * (rate_bp as u128);
    let divisor: u128 = BASIS_POINT_SECONDS_PER_YEAR as u128;
    let quotient: u128 = weighted / divisor;
    let remainder: u128 = weighted % divisor;
    proof {
        lemma_split_quotient(weighted as int, elapsed as int, divisor as int);
        assert(quotient * elapsed >= quotient) by (nonlinear_arith)
            requires
                elapsed >= 1,
                quotient >= 0,
        ;
        assert((remainder * elapsed) / (divisor as int) >= 0) by (nonlinear_arith)
            requires
                remainder >= 0,
                elapsed >= 0,
                divisor > 0,
        ;
    }
    if quotient > u64::MAX as u128 {
        return u64::MAX;
    }
    assert(quotient * elapsed <= 0xffff_ffff_ffff_ffff * 0xffff_ffff_ffff_ffff)
        by (nonlinear_arith)
        requires
            0 <= quotient <= 0xffff_ffff_ffff_ffff,
            0 <= elapsed <= 0xffff_ffff_ffff_ffff,
    ;
    let whole: u128 = quotient * elapsed;
    if whole > u64::MAX as u128 {
        return u64::MAX;
    }
    assert(remainder * elapsed <= 315_360_000_000 * 0xffff_ffff_ffff_ffff) by (nonlinear_arith)
        requires
            0 <= remainder <= 315_360_000_000,
            0 <= elapsed <= 0xffff_ffff_ffff_ffff,
    ;
    let part: u128 = (remainder * elapsed) / divisor;
    let total: u128 = whole + part;
    if total > u64::MAX as u128 {
        u64::MAX
    } else {
        total as u64
    }
}

/// A clock that has not advanced past the deposit pays no interest.
pub proof fn lemma_no_time_no_interest(principal: u64, rate_bp: u64, deposit_time: i64, now: i64)
    requires
        now <= deposit_time,
    ensures
        interest_due(principal, rate_bp, deposit_time, now) == 0,
{
}

/// Nothing on deposit earns nothing, whatever the rate and the time.
pub proof fn lemma_no_principal_no_interest(rate_bp: u64, deposit_time: i64, now: i64)
    ensures
        interest_due(0, rate_bp, deposit_time, now) == 0,
{
    let elapsed = elapsed_seconds(deposit_time, now);
    assert(0nat * (rate_bp as nat) * elapsed == 0) by (nonlinear_arith);
}

/// A rate of zero earns nothing.
pub proof fn lemma_no_rate_no_interest(principal: u64, deposit_time: i64, now: i64)
    ensures
        interest_due(principal, 0, deposit_time, now) == 0,
{
    let elapsed = elapsed_seconds(deposit_time, now);
    assert((principal as nat) * 0nat * elapsed == 0) by (nonlinear_arith);
}

/// After exactly one year the interest is the principal times the rate,
/// truncated: 500 basis points on 1000000 lamports pay 50000.
pub proof fn lemma_one_year(principal: u64, rate_bp: u64, deposit_time: i64, now: i64)
    requires
        elapsed_seconds(deposit_time, now) == SECONDS_PER_YEAR,
    ensures
        accrued(principal as nat, rate_bp as nat, elapsed_seconds(deposit_time, now)) == (principal
            * rate_bp) / (BASIS_POINTS as int),
{
    let weighted: int = principal * rate_bp;
    let year: int = SECONDS_PER_YEAR as int;
    let whole: int = BASIS_POINTS as int;
    assert(0 <= weighted) by (nonlinear_arith)
        requires
            weighted == principal * rate_bp,
    ;
    assert(whole * year == BASIS_POINT_SECONDS_PER_YEAR);
    // (weighted * year) / year / whole == (weighted * year) / (year * whole)
    assert(0 <= weighted * year) by (nonlinear_arith)
        requires
            0 <= weighted,
            0 <= year,
    ;
    lemma_div_denominator(weighted * year, year, whole);
    lemma_div_multiples_vanish(weighted, year);
    assert(weighted * year == year * weighted) by (nonlinear_arith);
    assert(year * whole == whole * year) by (nonlinear_arith);
}

/// Interest never shrinks as time passes.
pub proof fn lemma_interest_grows_with_time(
    principal: u64,
    rate_bp: u64,
    deposit_time: i64,
    earlier: i64,
    later: i64,
)
    requires
        earlier <= later,
    ensures
        interest_due(principal, rate_bp, deposit_time, earlier) <= interest_due(
            principal,
            rate_bp,
            deposit_time,
            later,
        ),
{
    let weighted: int = principal * rate_bp;
    let short = elapsed_seconds(deposit_time, earlier);
    let long = elapsed_seconds(deposit_time, later);
    let divisor = BASIS_POINT_SECONDS_PER_YEAR as int;
    assert(0 <= weighted) by (nonlinear_arith)
        requires
            weighted == principal * rate_bp,
    ;
    if short > 0 {
        assert(weighted * short <= weighted * long) by (nonlinear_arith)
            requires
                0 <= weighted,
                short <= long,
        ;
        lemma_div_is_ordered(weighted * short, weighted * long, divisor);
    } else if long > 0 {
        assert(0 <= weighted * long) by (nonlinear_arith)
            requires
                0 <= weighted,
                0 < long,
        ;
        lemma_div_pos_is_pos(weighted * long, divisor);
    }
}

} // verus!
