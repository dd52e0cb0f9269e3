//! Mapping of tick indices to the tick arrays that hold them.

use vstd::prelude::*;
use vstd::arithmetic::div_mod::{
    lemma_div_is_ordered, lemma_fundamental_div_mod, lemma_fundamental_div_mod_converse,
    lemma_mod_bound, lemma_mod_multiples_basic,
};

use crate::utils::constants::TICK_ARRAY_SIZE;

verus! {

/// Number of tick indices covered by one tick array of a pool with the
/// given spacing.
pub open spec fn array_span(tick_spacing: int) -> int {
    tick_spacing * TICK_ARRAY_SIZE as int
}

/// Start index of the tick array that holds `tick_index`: both divisions
/// round toward negative infinity.
pub open spec fn start_tick_index(tick_index: int, tick_spacing: int) -> int {
    ((tick_index / tick_spacing) / (TICK_ARRAY_SIZE as int)) * array_span(tick_spacing)
}

/// The start index is a multiple of the array span, and the array that
/// starts there holds the tick index.
pub proof fn lemma_start_tick_index_holds_tick(tick_index: int, tick_spacing: int)
    requires
        tick_spacing > 0,
    ensures
        array_span(tick_spacing) > 0,
        start_tick_index(tick_index, tick_spacing) % array_span(tick_spacing) == 0,
        start_tick_index(tick_index, tick_spacing) <= tick_index,
        tick_index < start_tick_index(tick_index, tick_spacing) + array_span(tick_spacing),
{
    let span = array_span(tick_spacing);
    let ticks = tick_index / tick_spacing;
    let arrays = ticks / 88;
    lemma_fundamental_div_mod(tick_index, tick_spacing);
    lemma_mod_bound(tick_index, tick_spacing);
    assert(arrays * span <= tick_index && tick_index < arrays * span + span) by (nonlinear_arith)
        requires
            tick_spacing > 0,
            span == tick_spacing * 88,
            88 * arrays <= ticks <= 88 * arrays + 87,
            tick_spacing * ticks <= tick_index < tick_spacing * ticks + tick_spacing,
    ;
    lemma_mod_multiples_basic(arrays, span);
}

/// The start index never decreases when the tick index grows.
pub proof fn lemma_start_tick_index_monotonic(lower: int, upper: int, tick_spacing: int)
    requires
        tick_spacing > 0,
        lower <= upper,
    ensures
        start_tick_index(lower, tick_spacing) <= start_tick_index(upper, tick_spacing),
{
    let span = array_span(tick_spacing);
    lemma_div_is_ordered(lower, upper, tick_spacing);
    lemma_div_is_ordered(lower / tick_spacing, upper / tick_spacing, 88);
    let a = (lower / tick_spacing) / 88;
    let b = (upper / tick_spacing) / 88;
    assert(a * span <= b * span) by (nonlinear_arith)
        requires
            a <= b,
            span > 0,
    ;
}

/// Quotient of `n` by a positive `d`, rounded toward negative infinity.
fn floor_div(n: i64, d: i64) -> (q: i64)
    requires
        0 < d,
        i64::MIN < n,
    ensures
        q == n as int / d as int,
        n >= 0 ==> 0 <= q <= n,
        n < 0 ==> n <= q < 0,
{
    if n >= 0 {
        let q: i64 = n / d;
        proof {
            lemma_fundamental_div_mod(n as int, d as int);
            lemma_mod_bound(n as int, d as int);
            assert(0 <= q <= n) by (nonlinear_arith)
                requires
                    0 < d,
                    0 <= n,
                    n == d * q + (n as int % d as int),
                    0 <= (n as int % d as int) < d,
            ;
        }
        q
    } else {
        let m: i64 = -(n + 1);
        let p: i64 = m / d;
        proof {
            let r = m as int % d as int;
            lemma_fundamental_div_mod(m as int, d as int);
            lemma_mod_bound(m as int, d as int);
            assert(0 <= p <= m) by (nonlinear_arith)
                requires
                    0 < d,
                    0 <= m,
                    m == d * p + r,
                    0 <= r < d,
            ;
            assert(n == (-p - 1) * d + (d - r - 1)) by (nonlinear_arith)
                requires
                    n == -m - 1,
                    m == d * p + r,
            ;
            lemma_fundamental_div_mod_converse(n as int, d as int, -p - 1, d - r - 1);
        }
        -p - 1
    }
}

/// Start index of the tick array that holds `tick_index` in a pool with
/// the given spacing.
///
/// Nothing wraps and nothing panics: a spacing of zero, and a tick index so
/// low that the start index would lie below `i32::MIN`, are ruled out by
/// the precondition.
pub fn get_tick_array_start_tick_index(tick_index: i32, tick_spacing: u16) -> (start: i32)
    requires
        tick_spacing > 0,
        start_tick_index(tick_index as int, tick_spacing as int) >= i32::MIN,
    ensures
        start == start_tick_index(tick_index as int, tick_spacing as int),
{
    let spacing: i64 = tick_spacing as i64;
    let ticks: i64 = floor_div(tick_index as i64, spacing);
    let arrays: i64 = floor_div(ticks, TICK_ARRAY_SIZE as i64);
    proof {
        lemma_start_tick_index_holds_tick(tick_index as int, tick_spacing as int);
        assert(arrays * (spacing * 88) == (arrays * spacing) * 88) by (nonlinear_arith);
        assert(-0x8000_0000_0000 <= arrays * spacing <= 0x8000_0000_0000) by (nonlinear_arith)
            requires
                -0x8000_0000 <= arrays <= 0x8000_0000,
                0 < spacing <= 0xffff,
        ;
    }
    let start: i64 = arrays * spacing * (TICK_ARRAY_SIZE as i64);
    start as i32
}

/// How many array spans the array in `slot` lies from the one that holds
/// the current tick: the current array comes first, then the two above it,
/// then the two below it.
pub open spec fn slot_shift(slot: int) -> int {
    if slot == 0 {
        0
    } else if slot == 1 {
        1
    } else if slot == 2 {
        2
    } else if slot == 3 {
        -1
    } else {
        -2
    }
}

/// Start index of the tick array in `slot` of the five that a swap at
/// `tick_index` may touch.
pub open spec fn swap_start_index(tick_index: int, tick_spacing: int, slot: int) -> int {
    start_tick_index(tick_index, tick_spacing) + slot_shift(slot) * array_span(tick_spacing)
}

/// The start indices of all five tick arrays of a swap fit in `i32`.
pub open spec fn swap_range_fits(tick_index: int, tick_spacing: int) -> bool {
    &&& i32::MIN <= swap_start_index(tick_index, tick_spacing, 4)
    &&& swap_start_index(tick_index, tick_spacing, 2) <= i32::MAX
}

/// The five tick arrays of a swap start at five different indices.
pub proof fn lemma_swap_start_indices_distinct(tick_index: int, tick_spacing: int)
    requires
        tick_spacing > 0,
    ensures
        forall|i: int, j: int|
            0 <= i < j < 5 ==> swap_start_index(tick_index, tick_spacing, i) != swap_start_index(
                tick_index,
                tick_spacing,
                j,
            ),
{
    let span = array_span(tick_spacing);
    assert(span > 0);
    assert forall|i: int, j: int| 0 <= i < j < 5 implies swap_start_index(
        tick_index,
        tick_spacing,
        i,
    ) != swap_start_index(tick_index, tick_spacing, j) by {
        assert(slot_shift(i) != slot_shift(j));
        assert(slot_shift(i) * span != slot_shift(j) * span) by (nonlinear_arith)
            requires
                slot_shift(i) != slot_shift(j),
                span > 0,
        ;
    }
}

/// Every one of the five tick arrays of a swap starts at a multiple of the
/// array span.
pub proof fn lemma_swap_start_indices_aligned(tick_index: int, tick_spacing: int, slot: int)
    requires
        tick_spacing > 0,
    ensures
        swap_start_index(tick_index, tick_spacing, slot) % array_span(tick_spacing) == 0,
{
    let span = array_span(tick_spacing);
    let arrays = (tick_index / tick_spacing) / 88;
    assert(swap_start_index(tick_index, tick_spacing, slot) == (arrays + slot_shift(slot)) * span)
        by (nonlinear_arith)
        requires
            swap_start_index(tick_index, tick_spacing, slot) == arrays * span + slot_shift(slot)
                * span,
    ;
    lemma_mod_multiples_basic(arrays + slot_shift(slot), span);
}

/// Tells whether a swap at `tick_index` can be served: the spacing is
/// positive and the start indices of all five tick arrays fit in `i32`.
pub fn swap_range_is_supported(tick_index: i32, tick_spacing: u16) -> (supported: bool)
    ensures
        supported == (tick_spacing > 0 && swap_range_fits(
            tick_index as int,
            tick_spacing as int,
        )),
{
    if tick_spacing == 0 {
        return false;
    }
    let spacing: i64 = tick_spacing as i64;
    assert(0 < spacing * (TICK_ARRAY_SIZE as i64) <= 5_767_080) by (nonlinear_arith)
        requires
            0 < spacing <= 0xffff,
            TICK_ARRAY_SIZE == 88,
    ;
    let span: i64 = spacing * (TICK_ARRAY_SIZE as i64);
    let ticks: i64 = floor_div(tick_index as i64, spacing);
    let arrays: i64 = floor_div(ticks, TICK_ARRAY_SIZE as i64);
    proof {
        lemma_start_tick_index_holds_tick(tick_index as int, tick_spacing as int);
        assert(-0x8000_0000_0000_0000 <= arrays * span <= 0x8000_0000_0000_0000)
            by (nonlinear_arith)
            requires
                -0x8000_0000 <= arrays <= 0x8000_0000,
                0 < span <= 0x1_0000_0000,
        ;
    }
    let base: i64 = arrays * span;
    base - 2 * span >= i32::MIN as i64 && base + 2 * span <= i32::MAX as i64
}

/// Start indices of the five tick arrays that a swap at
/// `current_tick_index` may touch: the array that holds the tick, the two
/// above it, the two below it, in this order.
///
/// Nothing wraps and nothing panics: a call whose indices would not fit in
/// `i32` is ruled out by the precondition, which `swap_range_is_supported`
/// tests at run time.
pub fn swap_array_start_indices(current_tick_index: i32, tick_spacing: u16) -> (indices: [i32; 5])
    requires
        tick_spacing > 0,
        swap_range_fits(current_tick_index as int, tick_spacing as int),
    ensures
        forall|slot: int|
            0 <= slot < 5 ==> #[trigger] indices[slot] == swap_start_index(
                current_tick_index as int,
                tick_spacing as int,
                slot,
            ),
        forall|i: int, j: int| 0 <= i < j < 5 ==> indices[i] != indices[j],
{
    proof {
        lemma_swap_start_indices_distinct(current_tick_index as int, tick_spacing as int);
    }
    let base: i32 = get_tick_array_start_tick_index(current_tick_index, tick_spacing);
    assert(0 < (tick_spacing as i32) * (TICK_ARRAY_SIZE as i32) <= 5_767_080)
        by (nonlinear_arith)
        requires
            0 < tick_spacing <= 0xffff,
            TICK_ARRAY_SIZE == 88,
    ;
    let span: i32 = (tick_spacing as i32) * (TICK_ARRAY_SIZE as i32);
    [base, base + span, base + span * 2, base - span, base - span * 2]
}

} // verus!
