use vstd::prelude::*;

verus! {

/// The sink's native volume that stands for 100 %.
pub const NATIVE_NORM: u32 = 0x10000;

/// The largest valid native volume.
pub const NATIVE_MAX: u32 = 0x7fff_ffff;

/// `a / b` rounded to the nearest integer, halves away from zero.
pub open spec fn round_div(a: int, b: int) -> int
    recommends
        a >= 0,
        b > 0,
{
    (2 * a + b) / (2 * b)
}

/// `round(NATIVE_NORM * p / 100)`, clamped to the native range.
pub open spec fn native_of(p: int) -> int {
    let r = round_div(NATIVE_NORM * p, 100);
    if r > NATIVE_MAX {
        NATIVE_MAX as int
    } else {
        r
    }
}

/// `round(n / NATIVE_NORM * 100)`, clamped to `0..=100`.
pub open spec fn percentage_of(n: int) -> int {
    let r = round_div(n * 100, NATIVE_NORM as int);
    if r > 100 {
        100
    } else {
        r
    }
}

/// Converts a percentage to the sink's native volume scale.
pub fn percentage_to_native(percentage: u8) -> (r: u32)
    ensures
        r == native_of(percentage as int),
{
    assert(percentage * NATIVE_NORM <= 255 * 0x10000) by (nonlinear_arith)
        requires
            NATIVE_NORM == 0x10000,
            0 <= percentage <= 255,
    ;
    let scaled: u64 = (percentage as u64) * (NATIVE_NORM as u64);
    let rounded: u64 = (2 * scaled + 100) / 200;
    assert(scaled == NATIVE_NORM * percentage) by (nonlinear_arith)
        requires
            scaled == percentage as int * 0x10000,
    ;
    if rounded > NATIVE_MAX as u64 {
        NATIVE_MAX
    } else {
        rounded as u32
    }
}

/// Converts a native sink volume to a percentage in `0..=100`.
pub fn native_to_percentage(native: u32) -> (r: u8)
    ensures
        r == percentage_of(native as int),
        r <= 100,
{
    let scaled: u64 = (native as u64) * 100;
    let rounded: u64 = (2 * scaled + NATIVE_NORM as u64) / (2 * NATIVE_NORM as u64);
    if rounded > 100 {
        100
    } else {
        rounded as u8
    }
}

/// A percentage survives the trip to the native scale and back unchanged, so
/// it is within one of where it started.
pub proof fn lemma_round_trip(p: int)
    requires
        0 <= p <= 100,
    ensures
        percentage_of(native_of(p)) == p,
{
    let n = (2 * (0x10000 * p) + 100) / 200;
    assert(200 * n <= 2 * 0x10000 * p + 100 < 200 * n + 200 && n <= 0x7fff_ffff) by (nonlinear_arith)
        requires
            n == (2 * (0x10000 * p) + 100) / 200,
            0 <= p <= 100,
    ;
    assert(native_of(p) == n);
    assert((2 * n * 100 + 0x10000) / (2 * 0x10000int) == p) by (nonlinear_arith)
        requires
            200 * n <= 2 * 0x10000 * p + 100 < 200 * n + 200,
            0 <= p <= 100,
    ;
}

/// A larger percentage never gives a smaller native volume.
pub proof fn lemma_native_monotonic(p1: int, p2: int)
    requires
        0 <= p1 <= p2,
    ensures
        native_of(p1) <= native_of(p2),
{
    assert(2 * (0x10000 * p1) + 100 <= 2 * (0x10000 * p2) + 100) by (nonlinear_arith)
        requires
            p1 <= p2,
    ;
    vstd::arithmetic::div_mod::lemma_div_is_ordered(
        2 * (0x10000 * p1) + 100,
        2 * (0x10000 * p2) + 100,
        200,
    );
}

/// A larger native volume never gives a smaller percentage.
pub proof fn lemma_percentage_monotonic(n1: int, n2: int)
    requires
        0 <= n1 <= n2,
    ensures
        percentage_of(n1) <= percentage_of(n2),
{
    vstd::arithmetic::div_mod::lemma_div_is_ordered(
        2 * (n1 * 100) + 0x10000,
        2 * (n2 * 100) + 0x10000,
        2 * 0x10000int,
    );
}

/// Composing the two conversions keeps the order of percentages.
pub proof fn lemma_round_trip_monotonic(p1: int, p2: int)
    requires
        0 <= p1 <= p2,
    ensures
        percentage_of(native_of(p1)) <= percentage_of(native_of(p2)),
{
    lemma_native_monotonic(p1, p2);
    assert(native_of(p1) >= 0) by {
        vstd::arithmetic::div_mod::lemma_div_pos_is_pos(2 * (0x10000 * p1) + 100, 200);
    }
    lemma_percentage_monotonic(native_of(p1), native_of(p2));
}

} // verus!
