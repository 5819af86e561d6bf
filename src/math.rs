use vstd::prelude::*;
use crate::error::ErrorCode;

verus! {

/// The fixed-point scale: 10^9 nano-units stand for 1.
pub const NANO: u128 = 1_000_000_000;

/// The malus returned once the market's time is exhausted.
pub const MAX_MALUS: u64 = 1_000_000_000_000;

/// The denominator of a rate in basis points.
pub const BPS_DENOMINATOR: u128 = 10000;

/// The fixed-point scale as a mathematical integer.
pub open spec fn nano() -> int {
    NANO as int
}

/// The largest value a 128-bit intermediate can hold.
pub open spec fn u128_max() -> int {
    u128::MAX as int
}

/// A mathematical value as a `u64` result: overflow where it does not fit.
pub open spec fn to_u64_result(v: int) -> Result<u64, ErrorCode> {
    if 0 <= v <= u64::MAX {
        Ok(v as u64)
    } else {
        Err(ErrorCode::ArithmeticOverflow)
    }
}

/// Time progress `elapsed / total_duration` in nano-units, for `elapsed >= 0`.
/// A negative duration reads as a huge unsigned one, so progress is zero.
pub open spec fn time_progress(elapsed: int, total_duration: int) -> int {
    if total_duration < 0 {
        0
    } else {
        elapsed * nano() / total_duration
    }
}

/// The exponent `k * x / (1 - x)` in nano-units, for progress `x < 1`.
pub open spec fn malus_exponent(x: int, k_millis: int) -> int {
    (k_millis * x / 1000) * nano() / (nano() - x)
}

/// `y^5`, the largest power the Taylor expansion forms.
pub open spec fn pow5(y: int) -> int {
    y * y * y * y * y
}

/// Five Taylor terms of `exp(y) - 1` in nano-units, each truncated on its own.
pub open spec fn taylor_exp_minus_one(y: int) -> int {
    y + (y * y) / (nano() * 2) + (y * y * y) / (nano() * nano() * 6) + (y * y * y * y) / (nano() * nano()
        * nano() * 24) + (y * y * y * y * y) / (nano() * nano() * nano() * nano() * 120)
}

/// `exp(y) - 1` by five Taylor terms, failing where a power of `y` leaves 128 bits.
pub open spec fn exp_minus_one_result(y: int) -> Result<u64, ErrorCode> {
    if pow5(y) > u128_max() {
        Err(ErrorCode::ArithmeticOverflow)
    } else {
        to_u64_result(taylor_exp_minus_one(y))
    }
}

/// The time malus in nano-units: `exp(k * x / (1 - x)) - 1` for progress `x < 1`, and
/// `MAX_MALUS` once time is exhausted. A zero duration divides by zero; a negative
/// elapsed time overflows the unsigned intermediate.
pub open spec fn malus_result(elapsed: i64, total_duration: i64, malus_k_millis: u32) -> Result<
    u64,
    ErrorCode,
> {
    if total_duration == 0 {
        Err(ErrorCode::DivisionByZero)
    } else if elapsed < 0 {
        Err(ErrorCode::ArithmeticOverflow)
    } else {
        let x = time_progress(elapsed as int, total_duration as int);
        if x >= nano() {
            Ok(MAX_MALUS)
        } else {
            exp_minus_one_result(malus_exponent(x, malus_k_millis as int))
        }
    }
}

/// The `a * n` term in nano-units, for `a = a_micros / 10^6`.
pub open spec fn linear_term(n: int, a_micros: int) -> int {
    a_micros * n * 1000
}

/// The `b * n^2` term in nano-units, for `b = b_micros / 10^6`.
pub open spec fn square_term(n: int, b_micros: int) -> int {
    b_micros * (n * n) * 1000
}

/// The demand uplift `1 + a*n + b*n^2` in nano-units.
pub open spec fn uplift_result(n: u64, quad_a_micros: u64, quad_b_micros: u64) -> Result<
    u64,
    ErrorCode,
> {
    to_u64_result(
        nano() + linear_term(n as int, quad_a_micros as int) + square_term(
            n as int,
            quad_b_micros as int,
        ),
    )
}

/// The price with malus, `base * (1 + malus)`, before the uplift.
pub open spec fn price_with_malus(base: int, malus_nanos: int) -> int {
    base * (nano() + malus_nanos) / nano()
}

/// The unit price `base * (1 + malus) * uplift`, truncated after each product.
pub open spec fn unit_price_result(base: u64, malus_nanos: u64, uplift_nanos: u64) -> Result<
    u64,
    ErrorCode,
> {
    let pwm = price_with_malus(base as int, malus_nanos as int);
    if base * (nano() + malus_nanos) > u128_max() || pwm * uplift_nanos > u128_max() {
        Err(ErrorCode::ArithmeticOverflow)
    } else {
        to_u64_result(pwm * uplift_nanos / nano())
    }
}

/// The cost of `qty` votes at `unit_price`.
pub open spec fn total_cost_result(unit_price: u64, qty: u64) -> Result<u64, ErrorCode> {
    to_u64_result(unit_price * qty)
}

/// The fee of `fee_bps` basis points on `total`, truncated.
pub open spec fn fee_value(total: int, fee_bps: int) -> int {
    total * fee_bps / 10000
}

/// The fee of `fee_bps` basis points on `total`, failing where it does not fit 64 bits.
pub open spec fn fee_result(total: u64, fee_bps: u16) -> Result<u64, ErrorCode> {
    to_u64_result(fee_value(total as int, fee_bps as int))
}

/// A bettor's share `pool * user_votes / total_votes`, truncated.
pub open spec fn user_share_result(pool: u64, user_votes: u64, total_votes: u64) -> Result<
    u64,
    ErrorCode,
> {
    if total_votes == 0 {
        Err(ErrorCode::DivisionByZero)
    } else {
        to_u64_result(pool * user_votes / (total_votes as int))
    }
}

/// Narrows a 128-bit value to 64 bits, failing instead of truncating.
fn narrow(v: u128) -> (r: Result<u64, ErrorCode>)
    ensures
        r == to_u64_result(v as int),
{
    if v > u64::MAX as u128 {
        Err(ErrorCode::ArithmeticOverflow)
    } else {
        Ok(v as u64)
    }
}

/// Each power of a positive integer is at least the one before.
proof fn lemma_powers_grow(y: int)
    requires
        y >= 1,
    ensures
        y <= y * y,
        y * y <= y * y * y,
        y * y * y <= y * y * y * y,
        y * y * y * y <= pow5(y),
{
    assert(y <= y * y) by (nonlinear_arith)
        requires
            y >= 1,
    ;
    assert(y * y <= y * y * y) by (nonlinear_arith)
        requires
            y >= 1,
    ;
    assert(y * y * y <= y * y * y * y) by (nonlinear_arith)
        requires
            y >= 1,
    ;
    assert(y * y * y * y <= y * y * y * y * y) by (nonlinear_arith)
        requires
            y >= 1,
    ;
}

/// A quotient of a value within 128 bits by at least `2 * 10^9` stays far below the 128-bit limit.
proof fn lemma_small_quotient(a: int, d: int)
    requires
        0 <= a <= u128_max(),
        d >= nano() * 2,
    ensures
        a / d <= u128_max() / (nano() * 2),
{
    vstd::arithmetic::div_mod::lemma_div_is_ordered_by_denominator(a, nano() * 2, d);
    vstd::arithmetic::div_mod::lemma_div_is_ordered(a, u128_max(), nano() * 2);
}

/// Approximates `exp(y) - 1` by five Taylor terms, with `y` and the result in nano-units.
fn exp_taylor_minus_one(x_nanos: u64) -> (r: Result<u64, ErrorCode>)
    ensures
        r == exp_minus_one_result(x_nanos as int),
{
    let x = x_nanos as u128;
    let ghost y = x as int;
    assert(y * y <= u128_max()) by (nonlinear_arith)
        requires
            0 <= y <= u64::MAX,
    ;
    if x == 0 {
        assert(taylor_exp_minus_one(0) == 0) by (nonlinear_arith);
        assert(pow5(0) == 0) by (nonlinear_arith);
        return Ok(0);
    }
    proof {
        lemma_powers_grow(y);
    }
    let x2 = x * x;
    let term2 = x2 / (NANO * 2);
    let x3 = match x2.checked_mul(x) {
        Some(v) => v,
        None => {
            return Err(ErrorCode::ArithmeticOverflow);
        },
    };
    let term3 = x3 / (NANO * NANO * 6);
    let x4 = match x3.checked_mul(x) {
        Some(v) => v,
        None => {
            return Err(ErrorCode::ArithmeticOverflow);
        },
    };
    let term4 = x4 / (NANO * NANO * NANO * 24);
    let x5 = match x4.checked_mul(x) {
        Some(v) => v,
        None => {
            return Err(ErrorCode::ArithmeticOverflow);
        },
    };
    let term5 = x5 / (NANO * NANO * NANO * NANO * 120);
    proof {
        lemma_small_quotient(x2 as int, nano() * 2);
        lemma_small_quotient(x3 as int, nano() * nano() * 6);
        lemma_small_quotient(x4 as int, nano() * nano() * nano() * 24);
        lemma_small_quotient(x5 as int, nano() * nano() * nano() * nano() * 120);
    }
    let result = x + term2 + term3 + term4 + term5;
    narrow(result)
}

/// Calculates the time malus `exp(k * x / (1 - x)) - 1` in nano-units, where `x` is
/// the elapsed share of the market's duration and `k = malus_k_millis / 1000`.
/// Once `x` reaches 1 the malus saturates at `MAX_MALUS`.
pub fn calculate_malus(elapsed_secs: i64, total_duration_secs: i64, malus_k_millis: u32) -> (r:
    Result<u64, ErrorCode>)
    ensures
        r == malus_result(elapsed_secs, total_duration_secs, malus_k_millis),
{
    if total_duration_secs == 0 {
        return Err(ErrorCode::DivisionByZero);
    }
    if elapsed_secs < 0 {
        return Err(ErrorCode::ArithmeticOverflow);
    }
    let x_nanos: u128 = if total_duration_secs < 0 {
        0
    } else {
        (elapsed_secs as u128) * NANO / (total_duration_secs as u128)
    };
    if x_nanos >= NANO {
        return Ok(MAX_MALUS);
    }
    let one_minus_x = NANO - x_nanos;
    assert((malus_k_millis as int) * (x_nanos as int) <= (u32::MAX as int) * nano()) by (
    nonlinear_arith)
        requires
            malus_k_millis <= u32::MAX,
            0 <= x_nanos < nano(),
    ;
    let k_x_nanos = (malus_k_millis as u128) * x_nanos / 1000;
    assert((k_x_nanos as int) * nano() <= u128_max()) by (nonlinear_arith)
        requires
            k_x_nanos as int == (malus_k_millis as int) * (x_nanos as int) / 1000,
            (malus_k_millis as int) * (x_nanos as int) <= (u32::MAX as int) * nano(),
            nano() == 1_000_000_000,
    ;
    let exponent = k_x_nanos * NANO / one_minus_x;
    if exponent > u64::MAX as u128 {
        proof {
            let e = exponent as int;
            lemma_powers_grow(e);
            assert(e * e > u128_max()) by (nonlinear_arith)
                requires
                    e > u64::MAX,
            ;
        }
        return Err(ErrorCode::ArithmeticOverflow);
    }
    exp_taylor_minus_one(exponent as u64)
}

/// Calculates the demand uplift `1 + a*n + b*n^2` in nano-units, where
/// `a = quad_a_micros / 10^6` and `b = quad_b_micros / 10^6`.
pub fn calculate_quadratic_uplift(n: u64, quad_a_micros: u64, quad_b_micros: u64) -> (r: Result<
    u64,
    ErrorCode,
>)
    ensures
        r == uplift_result(n, quad_a_micros, quad_b_micros),
{
    let n_128 = n as u128;
    let ghost a_n_spec = linear_term(n as int, quad_a_micros as int);
    let ghost b_n2_spec = square_term(n as int, quad_b_micros as int);
    assert((quad_a_micros as int) * (n as int) <= u128_max()) by (nonlinear_arith)
        requires
            quad_a_micros <= u64::MAX,
            n <= u64::MAX,
    ;
    assert((n as int) * (n as int) <= u128_max()) by (nonlinear_arith)
        requires
            n <= u64::MAX,
    ;
    assert(0 <= (quad_b_micros as int) * ((n as int) * (n as int))) by (nonlinear_arith);
    assert(0 <= (quad_a_micros as int) * (n as int)) by (nonlinear_arith);
    let a_n = match ((quad_a_micros as u128) * n_128).checked_mul(1000) {
        Some(v) => v,
        None => {
            return Err(ErrorCode::ArithmeticOverflow);
        },
    };
    let n_squared = n_128 * n_128;
    let b_n2 = match (quad_b_micros as u128).checked_mul(n_squared) {
        Some(v) => match v.checked_mul(1000) {
            Some(w) => w,
            None => {
                return Err(ErrorCode::ArithmeticOverflow);
            },
        },
        None => {
            assert(b_n2_spec > u128_max()) by (nonlinear_arith)
                requires
                    (quad_b_micros as int) * ((n as int) * (n as int)) > u128_max(),
                    b_n2_spec == (quad_b_micros as int) * ((n as int) * (n as int)) * 1000,
            ;
            return Err(ErrorCode::ArithmeticOverflow);
        },
    };
    let with_linear = match NANO.checked_add(a_n) {
        Some(v) => v,
        None => {
            return Err(ErrorCode::ArithmeticOverflow);
        },
    };
    let result = match with_linear.checked_add(b_n2) {
        Some(v) => v,
        None => {
            return Err(ErrorCode::ArithmeticOverflow);
        },
    };
    narrow(result)
}

/// Calculates the unit price `base * (1 + malus) * uplift`, with malus and uplift in
/// nano-units and the product scaled down after each multiplication.
pub fn calculate_unit_price(base_price_lamports: u64, malus_nanos: u64, quad_multiplier_nanos: u64) -> (r:
    Result<u64, ErrorCode>)
    ensures
        r == unit_price_result(base_price_lamports, malus_nanos, quad_multiplier_nanos),
{
    let base = base_price_lamports as u128;
    let one_plus_malus = NANO + malus_nanos as u128;
    let price_with_malus = match base.checked_mul(one_plus_malus) {
        Some(v) => v / NANO,
        None => {
            return Err(ErrorCode::ArithmeticOverflow);
        },
    };
    let final_price = match price_with_malus.checked_mul(quad_multiplier_nanos as u128) {
        Some(v) => v / NANO,
        None => {
            return Err(ErrorCode::ArithmeticOverflow);
        },
    };
    narrow(final_price)
}

/// Calculates the total cost of `vote_qty` votes: exactly `unit_price * vote_qty`.
pub fn calculate_total_cost(unit_price: u64, vote_qty: u64) -> (r: Result<u64, ErrorCode>)
    ensures
        r == total_cost_result(unit_price, vote_qty),
{
    assert((unit_price as int) * (vote_qty as int) <= u128::MAX) by (nonlinear_arith)
        requires
            unit_price <= u64::MAX,
            vote_qty <= u64::MAX,
    ;
    let total = (unit_price as u128) * (vote_qty as u128);
    narrow(total)
}

/// Calculates a fee of `fee_bps` basis points on `total`, truncating.
pub fn calculate_fee(total: u64, fee_bps: u16) -> (r: Result<u64, ErrorCode>)
    ensures
        r == fee_result(total, fee_bps),
{
    assert((total as int) * (fee_bps as int) <= u128::MAX) by (nonlinear_arith)
        requires
            total <= u64::MAX,
            fee_bps <= u16::MAX,
    ;
    let fee = (total as u128) * (fee_bps as u128) / BPS_DENOMINATOR;
    narrow(fee)
}

/// Calculates a bettor's share of the payout pool with 128-bit intermediates.
pub fn calculate_user_share(payout_pool: u64, user_winning_votes: u64, total_winning_votes: u64) -> (r:
    Result<u64, ErrorCode>)
    ensures
        r == user_share_result(payout_pool, user_winning_votes, total_winning_votes),
{
    if total_winning_votes == 0 {
        return Err(ErrorCode::DivisionByZero);
    }
    assert((payout_pool as int) * (user_winning_votes as int) <= u128::MAX) by (nonlinear_arith)
        requires
            payout_pool <= u64::MAX,
            user_winning_votes <= u64::MAX,
    ;
    let share = (payout_pool as u128) * (user_winning_votes as u128)
        / (total_winning_votes as u128);
    narrow(share)
}

/// Powers of non-negative integers keep their order.
proof fn lemma_powers_ordered(y1: int, y2: int)
    requires
        0 <= y1 <= y2,
    ensures
        y1 * y1 <= y2 * y2,
        y1 * y1 * y1 <= y2 * y2 * y2,
        y1 * y1 * y1 * y1 <= y2 * y2 * y2 * y2,
        pow5(y1) <= pow5(y2),
{
    vstd::arithmetic::mul::lemma_mul_upper_bound(y1, y2, y1, y2);
    vstd::arithmetic::mul::lemma_mul_upper_bound(y1 * y1, y2 * y2, y1, y2);
    vstd::arithmetic::mul::lemma_mul_upper_bound(y1 * y1 * y1, y2 * y2 * y2, y1, y2);
    vstd::arithmetic::mul::lemma_mul_upper_bound(y1 * y1 * y1 * y1, y2 * y2 * y2 * y2, y1, y2);
}

/// The Taylor approximation grows with its argument.
proof fn lemma_taylor_monotone(y1: int, y2: int)
    requires
        0 <= y1 <= y2,
    ensures
        taylor_exp_minus_one(y1) <= taylor_exp_minus_one(y2),
{
    lemma_powers_ordered(y1, y2);
    vstd::arithmetic::div_mod::lemma_div_is_ordered(y1 * y1, y2 * y2, nano() * 2);
    vstd::arithmetic::div_mod::lemma_div_is_ordered(y1 * y1 * y1, y2 * y2 * y2, nano() * nano() * 6);
    vstd::arithmetic::div_mod::lemma_div_is_ordered(
        y1 * y1 * y1 * y1,
        y2 * y2 * y2 * y2,
        nano() * nano() * nano() * 24,
    );
    vstd::arithmetic::div_mod::lemma_div_is_ordered(
        pow5(y1),
        pow5(y2),
        nano() * nano() * nano() * nano() * 120,
    );
}

/// Time progress is below one whole unit while time remains, and grows with elapsed time.
proof fn lemma_progress_monotone(e1: int, e2: int, t: int)
    requires
        0 <= e1 <= e2 < t,
    ensures
        0 <= time_progress(e1, t) <= time_progress(e2, t) < nano(),
{
    vstd::arithmetic::mul::lemma_mul_inequality(e1, e2, nano());
    vstd::arithmetic::div_mod::lemma_div_is_ordered(e1 * nano(), e2 * nano(), t);
    vstd::arithmetic::div_mod::lemma_div_pos_is_pos(e1 * nano(), t);
    assert(e2 * nano() < t * nano()) by (nonlinear_arith)
        requires
            e2 < t,
            nano() > 0,
    ;
    vstd::arithmetic::div_mod::lemma_multiply_divide_lt(e2 * nano(), t, nano());
}

/// The malus exponent grows with time progress.
proof fn lemma_exponent_monotone(x1: int, x2: int, k: int)
    requires
        0 <= x1 <= x2 < nano(),
        k >= 0,
    ensures
        0 <= malus_exponent(x1, k) <= malus_exponent(x2, k),
{
    vstd::arithmetic::mul::lemma_mul_inequality(x1, x2, k);
    vstd::arithmetic::mul::lemma_mul_is_commutative(x1, k);
    vstd::arithmetic::mul::lemma_mul_is_commutative(x2, k);
    vstd::arithmetic::mul::lemma_mul_nonnegative(k, x1);
    vstd::arithmetic::div_mod::lemma_div_is_ordered(k * x1, k * x2, 1000);
    let kx1 = k * x1 / 1000;
    let kx2 = k * x2 / 1000;
    vstd::arithmetic::div_mod::lemma_div_pos_is_pos(k * x1, 1000);
    vstd::arithmetic::mul::lemma_mul_inequality(kx1, kx2, nano());
    vstd::arithmetic::mul::lemma_mul_nonnegative(kx1, nano());
    vstd::arithmetic::div_mod::lemma_div_is_ordered_by_denominator(
        kx1 * nano(),
        nano() - x2,
        nano() - x1,
    );
    vstd::arithmetic::div_mod::lemma_div_is_ordered(kx1 * nano(), kx2 * nano(), nano() - x2);
    vstd::arithmetic::div_mod::lemma_div_pos_is_pos(kx1 * nano(), nano() - x1);
}

/// Law: while time remains, the malus is non-negative and never decreases as time
/// passes; where a later malus is computable, so is every earlier one.
pub proof fn lemma_malus_monotone(elapsed1: i64, elapsed2: i64, total_duration: i64, malus_k_millis: u32)
    requires
        0 <= elapsed1 <= elapsed2 < total_duration,
    ensures
        malus_result(elapsed2, total_duration, malus_k_millis) is Ok ==> (malus_result(
            elapsed1,
            total_duration,
            malus_k_millis,
        ) is Ok && 0 <= malus_result(elapsed1, total_duration, malus_k_millis)->Ok_0
            <= malus_result(elapsed2, total_duration, malus_k_millis)->Ok_0),
{
    let x1 = time_progress(elapsed1 as int, total_duration as int);
    let x2 = time_progress(elapsed2 as int, total_duration as int);
    lemma_progress_monotone(elapsed1 as int, elapsed2 as int, total_duration as int);
    let y1 = malus_exponent(x1, malus_k_millis as int);
    let y2 = malus_exponent(x2, malus_k_millis as int);
    lemma_exponent_monotone(x1, x2, malus_k_millis as int);
    lemma_powers_ordered(y1, y2);
    lemma_taylor_monotone(y1, y2);
}

/// Law: the demand uplift never decreases as the vote count grows; where a larger
/// count's uplift is computable, so is every smaller one.
pub proof fn lemma_uplift_monotone(n1: u64, n2: u64, quad_a_micros: u64, quad_b_micros: u64)
    requires
        n1 < n2,
    ensures
        uplift_result(n2, quad_a_micros, quad_b_micros) is Ok ==> (uplift_result(
            n1,
            quad_a_micros,
            quad_b_micros,
        ) is Ok && uplift_result(n1, quad_a_micros, quad_b_micros)->Ok_0 <= uplift_result(
            n2,
            quad_a_micros,
            quad_b_micros,
        )->Ok_0),
{
    let a = quad_a_micros as int;
    let b = quad_b_micros as int;
    vstd::arithmetic::mul::lemma_mul_inequality(n1 as int, n2 as int, a);
    vstd::arithmetic::mul::lemma_mul_is_commutative(n1 as int, a);
    vstd::arithmetic::mul::lemma_mul_is_commutative(n2 as int, a);
    vstd::arithmetic::mul::lemma_mul_inequality(a * n1, a * n2, 1000);
    lemma_powers_ordered(n1 as int, n2 as int);
    vstd::arithmetic::mul::lemma_mul_inequality((n1 * n1) as int, (n2 * n2) as int, b);
    vstd::arithmetic::mul::lemma_mul_is_commutative((n1 * n1) as int, b);
    vstd::arithmetic::mul::lemma_mul_is_commutative((n2 * n2) as int, b);
    vstd::arithmetic::mul::lemma_mul_inequality(b * (n1 * n1), b * (n2 * n2), 1000);
    vstd::arithmetic::mul::lemma_mul_nonnegative(a, n1 as int);
    vstd::arithmetic::mul::lemma_mul_nonnegative(n1 as int, n1 as int);
    vstd::arithmetic::mul::lemma_mul_nonnegative(b, (n1 * n1) as int);
}

/// Law: a single vote costs exactly its unit price.
pub proof fn lemma_single_vote_cost(unit_price: u64)
    ensures
        total_cost_result(unit_price, 1) == Ok::<u64, ErrorCode>(unit_price),
{
}

/// Law: fees at complementary rates never add up to more than the total they are taken from.
pub proof fn lemma_complementary_fees_within_total(total: u64, fee_bps: u16)
    requires
        fee_bps <= 10000,
    ensures
        fee_result(total, fee_bps) is Ok,
        fee_result(total, (10000 - fee_bps) as u16) is Ok,
        fee_result(total, fee_bps)->Ok_0 + fee_result(total, (10000 - fee_bps) as u16)->Ok_0
            <= total,
{
    let t = total as int;
    let b = fee_bps as int;
    assert(t * b + t * (10000 - b) == t * 10000) by (nonlinear_arith);
    vstd::arithmetic::mul::lemma_mul_nonnegative(t, b);
    vstd::arithmetic::mul::lemma_mul_nonnegative(t, 10000 - b);
    assert((t * b) / 10000 + (t * (10000 - b)) / 10000 <= (t * b + t * (10000 - b)) / 10000) by {
        vstd::arithmetic::div_mod::lemma_fundamental_div_mod(t * b, 10000);
        vstd::arithmetic::div_mod::lemma_fundamental_div_mod(t * (10000 - b), 10000);
        vstd::arithmetic::div_mod::lemma_fundamental_div_mod(t * b + t * (10000 - b), 10000);
    }
    vstd::arithmetic::div_mod::lemma_div_pos_is_pos(t * b, 10000);
    vstd::arithmetic::div_mod::lemma_div_pos_is_pos(t * (10000 - b), 10000);
}

} // verus!
