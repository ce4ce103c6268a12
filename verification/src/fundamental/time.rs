//! Time stamps in microseconds and the spans between them.

use vstd::prelude::*;

verus! {

/// A reading of the system clock.
#[verifier::external_type_specification]
#[verifier::external_body]
pub struct ExSystemTime(std::time::SystemTime);

/// What `duration_since` returns for a reading that lies before the time it
/// is compared with.
#[verifier::external_type_specification]
#[verifier::external_body]
pub struct ExSystemTimeError(std::time::SystemTimeError);

/// `std::time::SystemTime::now`: what the system clock reads. Nothing is
/// claimed of the reading: two calls may return anything, in any order.
#[verifier::external_body]
fn system_clock() -> (reading: std::time::SystemTime) {
    std::time::SystemTime::now()
}

/// `std::time::SystemTime::duration_since`, against the Unix epoch: the span
/// from the epoch to the reading, or the error where the reading lies before
/// the epoch. Nothing is claimed of which it is, nor of the span.
#[verifier::external_body]
fn since_unix_epoch(reading: &std::time::SystemTime) -> (span: Result<
    core::time::Duration,
    std::time::SystemTimeError,
>) {
    reading.duration_since(std::time::UNIX_EPOCH)
}

/// `std::time::SystemTimeError::duration`: how far before the epoch the
/// reading lies. Nothing is claimed of the span.
#[verifier::external_body]
fn span_before(error: &std::time::SystemTimeError) -> (span: core::time::Duration) {
    error.duration()
}

/// `core::time::Duration::as_micros`: the whole microseconds of the span.
/// Nothing is claimed of the number.
#[verifier::external_body]
fn whole_micros(span: &core::time::Duration) -> (micros: u128) {
    span.as_micros()
}

/// Reads the system clock against the Unix epoch: `Ok` with the whole
/// microseconds since the epoch, or `Err` with the whole microseconds that
/// the clock stands before it.
pub fn time_since_epoch() -> (reading: Result<u128, u128>) {
    let now = system_clock();
    match since_unix_epoch(&now) {
        Ok(span) => Ok(whole_micros(&span)),
        Err(error) => {
            let span = span_before(&error);
            Err(whole_micros(&span))
        },
    }
}

/// The time stamp for a reading of the clock: the microseconds since the
/// epoch, and the negative of the microseconds before it. A number that does
/// not fit the type keeps its low 64 bits.
pub open spec fn time_stamp(reading: Result<u128, u128>) -> i64 {
    match reading {
        Ok(after) => after as i64,
        Err(before) => 0i64.wrapping_sub(before as i64),
    }
}

/// The time stamp for a reading of the clock, whatever the clock read.
pub fn time_of_reading(reading: Result<u128, u128>) -> (stamp: i64)
    ensures
        stamp == time_stamp(reading),
        reading matches Ok(after) ==> (after <= i64::MAX ==> stamp == after),
        reading matches Err(before) ==> (before <= i64::MAX ==> stamp == -before),
{
    match reading {
        Ok(after) => #[verifier::truncate] (after as i64),
        Err(before) => {
            let low: i64 = #[verifier::truncate] (before as i64);
            0i64.wrapping_sub(low)
        },
    }
}

/// The time of the call in microseconds since the Unix epoch; negative where
/// the clock stands before the epoch.
pub fn time_now() -> (now: i64) {
    let reading = time_since_epoch();
    time_of_reading(reading)
}

/// The microseconds from `starting_time` to `now`. A span that does not fit
/// the type wraps around.
pub fn time_span(starting_time: i64, now: i64) -> (span: i64)
    ensures
        span == now.wrapping_sub(starting_time),
        i64::MIN <= now - starting_time <= i64::MAX ==> span == now - starting_time,
{
    now.wrapping_sub(starting_time)
}

/// The microseconds that have passed since `starting_time`: the span from
/// there to the time of the call.
pub fn time_from(starting_time: i64) -> (span: i64) {
    let now: i64 = time_now();
    time_span(starting_time, now)
}

/// The quotient of `value` by `denom`, rounded toward zero.
pub open spec fn quotient(value: int, denom: int) -> int
    recommends
        denom != 0,
{
    if value >= 0 {
        if denom > 0 {
            value / denom
        } else {
            -(value / (-denom))
        }
    } else {
        if denom > 0 {
            -((-value) / denom)
        } else {
            (-value) / (-denom)
        }
    }
}

/// What the quotient rounded toward zero leaves of `value`.
pub open spec fn remainder(value: int, denom: int) -> int
    recommends
        denom != 0,
{
    value - quotient(value, denom) * denom
}

/// `value * numer / denom`, computed so that the product does not have to fit
/// the type: only the scaled quotient and the scaled remainder do.
pub open spec fn mul_div(value: int, numer: int, denom: int) -> int
    recommends
        denom != 0,
{
    quotient(value, denom) * numer + quotient(remainder(value, denom) * numer, denom)
}

/// The absolute value.
pub open spec fn magnitude(value: int) -> int {
    if value >= 0 {
        value
    } else {
        -value
    }
}

/// The quotient is no larger than `value` in magnitude, the remainder is
/// smaller than `denom` in magnitude, and the remainder has the sign of
/// `value` or is 0. In magnitudes, quotient and remainder are those of the
/// magnitudes.
pub proof fn lemma_quotient_remainder(value: int, denom: int)
    requires
        denom != 0,
    ensures
        magnitude(quotient(value, denom)) == magnitude(value) / magnitude(denom),
        magnitude(remainder(value, denom)) == magnitude(value) % magnitude(denom),
        magnitude(quotient(value, denom)) <= magnitude(value),
        magnitude(remainder(value, denom)) < magnitude(denom),
        value >= 0 ==> remainder(value, denom) >= 0,
        value <= 0 ==> remainder(value, denom) <= 0,
        (value >= 0) == (denom > 0) ==> quotient(value, denom) >= 0,
        (value >= 0) != (denom > 0) ==> quotient(value, denom) <= 0,
{
    let a = magnitude(value);
    let c = magnitude(denom);
    vstd::arithmetic::div_mod::lemma_fundamental_div_mod(a, c);
    vstd::arithmetic::div_mod::lemma_mod_bound(a, c);
    vstd::arithmetic::div_mod::lemma_div_pos_is_pos(a, c);
    vstd::arithmetic::div_mod::lemma_div_is_ordered_by_denominator(a, 1, c);
    vstd::arithmetic::div_mod::lemma_div_basics(a);
    let q = a / c;
    assert(c * q == q * c && (-q) * c == -(q * c) && q * (-c) == -(q * c) && (-q) * (-c) == q
        * c) by (nonlinear_arith);
}

/// In executable code `/` and `%` on signed numbers round toward zero: what
/// they compute are `quotient` and `remainder`.
proof fn lemma_operators_round_toward_zero(value: int, denom: int)
    requires
        denom != 0,
    ensures
        value >= 0 ==> value / denom == quotient(value, denom) && value % denom == remainder(
            value,
            denom,
        ),
        value < 0 ==> -((-value) / denom) == quotient(value, denom) && -((-value) % denom)
            == remainder(value, denom),
{
    let a = magnitude(value);
    let c = magnitude(denom);
    lemma_quotient_remainder(value, denom);
    vstd::arithmetic::div_mod::lemma_fundamental_div_mod(a, c);
    vstd::arithmetic::div_mod::lemma_mod_bound(a, c);
    let q = a / c;
    let r = a % c;
    assert(c * q == q * c && (-q) * c == -(q * c) && q * (-c) == -(q * c) && (-q) * (-c) == q
        * c) by (nonlinear_arith);
    if denom < 0 {
        assert(a / denom == -q && a % denom == r) by (nonlinear_arith)
            requires
                a == c * q + r,
                0 <= r < c,
                denom == -c,
        ;
    }
}

/// Splitting a number into quotient and remainder before scaling loses
/// nothing where all three numbers are non-negative.
proof fn lemma_mul_div_of_magnitudes(a: int, b: int, c: int)
    requires
        0 <= a,
        0 <= b,
        0 < c,
    ensures
        (a / c) * b + ((a % c) * b) / c == (a * b) / c,
        0 <= (a % c) * b,
        0 <= a * b,
        0 <= ((a % c) * b) / c,
        0 <= (a * b) / c,
        0 <= (a / c) * b,
{
    let q = a / c;
    let r = a % c;
    vstd::arithmetic::div_mod::lemma_fundamental_div_mod(a, c);
    vstd::arithmetic::div_mod::lemma_mod_bound(a, c);
    vstd::arithmetic::div_mod::lemma_div_pos_is_pos(a, c);
    assert(a * b == c * (q * b) + r * b) by (nonlinear_arith)
        requires
            a == c * q + r,
    ;
    assert(0 <= r * b && 0 <= a * b && 0 <= q * b) by (nonlinear_arith)
        requires
            0 <= r,
            0 <= a,
            0 <= b,
            0 <= q,
    ;
    vstd::arithmetic::div_mod::lemma_hoist_over_denominator(r * b, q * b, c as nat);
    assert((q * b) * c == c * (q * b)) by (nonlinear_arith);
    vstd::arithmetic::div_mod::lemma_div_pos_is_pos(r * b, c);
    vstd::arithmetic::div_mod::lemma_div_pos_is_pos(a * b, c);
}

/// Splitting `value` into quotient and remainder before scaling loses
/// nothing: the result is the product divided by `denom`, rounded toward
/// zero, whatever the signs.
pub proof fn lemma_mul_div_is_exact(value: int, numer: int, denom: int)
    requires
        denom != 0,
    ensures
        mul_div(value, numer, denom) == quotient(value * numer, denom),
{
    let a = magnitude(value);
    let b = magnitude(numer);
    let c = magnitude(denom);
    lemma_quotient_remainder(value, denom);
    lemma_mul_div_of_magnitudes(a, b, c);
    let q = quotient(value, denom);
    let r = remainder(value, denom);
    let scaled_r = r * numer;
    let product = value * numer;
    vstd::arithmetic::div_mod::lemma_div_basics(c);
    assert(0int / c == 0);
    // The remainder and the product, scaled, by their magnitudes.
    let m = a % c;
    if value >= 0 && numer >= 0 {
        assert(scaled_r == m * b && product == a * b);
    } else if value < 0 && numer < 0 {
        assert(scaled_r == m * b && product == a * b) by (nonlinear_arith)
            requires
                scaled_r == r * numer,
                product == value * numer,
                r == -m,
                value == -a,
                numer == -b,
        ;
    } else if value >= 0 {
        assert(scaled_r == -(m * b) && product == -(a * b)) by (nonlinear_arith)
            requires
                scaled_r == r * numer,
                product == value * numer,
                r == m,
                value == a,
                numer == -b,
        ;
    } else {
        assert(scaled_r == -(m * b) && product == -(a * b)) by (nonlinear_arith)
            requires
                scaled_r == r * numer,
                product == value * numer,
                r == -m,
                value == -a,
                numer == b,
        ;
    }
    // The quotient, scaled, by its magnitude.
    if (value >= 0) == (denom > 0) {
        assert(q == a / c);
        if numer >= 0 {
            assert(q * numer == (a / c) * b);
        } else {
            assert(q * numer == -((a / c) * b)) by (nonlinear_arith)
                requires
                    q == a / c,
                    numer == -b,
            ;
        }
    } else {
        assert(q == -(a / c));
        if numer >= 0 {
            assert(q * numer == -((a / c) * b)) by (nonlinear_arith)
                requires
                    q == -(a / c),
                    numer == b,
            ;
        } else {
            assert(q * numer == (a / c) * b) by (nonlinear_arith)
                requires
                    q == -(a / c),
                    numer == -b,
            ;
        }
    }
}

/// Scales a count of ticks: `value * numer / denom`, rounded toward zero,
/// without forming the product. Only what the computation itself forms has to
/// fit the type: the quotient and the remainder of `value`, each scaled by
/// `numer`, and the result.
pub fn int64_mul_div(value: i64, numer: i64, denom: i64) -> (scaled: i64)
    requires
        denom != 0,
        !(value == i64::MIN && denom == -1),
        i64::MIN <= quotient(value as int, denom as int) * numer <= i64::MAX,
        i64::MIN <= remainder(value as int, denom as int) * numer <= i64::MAX,
        i64::MIN <= mul_div(value as int, numer as int, denom as int) <= i64::MAX,
    ensures
        scaled == mul_div(value as int, numer as int, denom as int),
        scaled == quotient(value * numer, denom as int),
{
    proof {
        lemma_mul_div_is_exact(value as int, numer as int, denom as int);
        lemma_quotient_remainder(value as int, denom as int);
        lemma_operators_round_toward_zero(value as int, denom as int);
    }
    let q: i64 = value / denom;
    let r: i64 = value % denom;
    assert(q == quotient(value as int, denom as int));
    assert(r == remainder(value as int, denom as int));
    let scaled_q: i64 = q * numer;
    let scaled_r: i64 = r * numer;
    proof {
        lemma_quotient_remainder(scaled_r as int, denom as int);
        lemma_operators_round_toward_zero(scaled_r as int, denom as int);
        if denom == -1 {
            assert(r == 0);
            assert(scaled_r == 0);
        }
        if scaled_r < 0 && denom < -1 {
            vstd::arithmetic::div_mod::lemma_div_decreases(-(scaled_r as int), -(denom as int));
        }
    }
    let rest: i64 = scaled_r / denom;
    assert(rest == quotient(scaled_r as int, denom as int));
    scaled_q + rest
}

} // verus!
