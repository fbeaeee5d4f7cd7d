//! How an animation progresses over repeated updates: that it finishes,
//! how soon, and how the sprite's size evolves through the phases.
use vstd::arithmetic::div_mod::{lemma_div_is_ordered, lemma_fundamental_div_mod, lemma_mod_pos_bound};
use vstd::arithmetic::mul::lemma_mul_inequality;
use vstd::prelude::*;

use crate::character::{
    frame_slices, height_at, lemma_animation_constants, next_slice, round_div, size_at, width_at,
    ANIM_FRAME_SLICES, HEIGHT_BIG, HEIGHT_SMALL, SLICES_PER_TARGET_FRAME, SLICE_FROM_MOVEMENT_SHIFT,
    SLICE_FROM_MOVEMENT_TO_BIG, SLICE_FROM_MOVEMENT_TO_SMALL, UNIT, WIDTH_BIG, WIDTH_SMALL,
};
use crate::frame_data::SCALE_ONE;

verus! {

/// The slice reached from `slice` after `n` updates at time-scale `scale`.
pub open spec fn slice_after(slice: int, scale: int, n: nat) -> int
    decreases n,
{
    if n == 0 {
        slice
    } else {
        next_slice(slice_after(slice, scale, (n - 1) as nat), scale)
    }
}

/// Updates at time-scale `scale` that a whole animation takes: the number
/// of slices over the slices per update, rounded up.
pub open spec fn updates_to_finish(scale: int) -> int {
    (ANIM_FRAME_SLICES + frame_slices(scale) - 1) / frame_slices(scale)
}

/// From slice 0, `n` updates that each advance `k` slices reach `n * k`,
/// clamped at the terminal slice.
proof fn lemma_slice_after_from_start(scale: int, n: nat)
    requires
        frame_slices(scale) > 0,
    ensures
        slice_after(0, scale, n) == if n * frame_slices(scale) >= ANIM_FRAME_SLICES {
            ANIM_FRAME_SLICES as int
        } else {
            n * frame_slices(scale)
        },
    decreases n,
{
    let k = frame_slices(scale);
    if n > 0 {
        let m = (n - 1) as nat;
        lemma_slice_after_from_start(scale, m);
        assert(n * k == m * k + k) by (nonlinear_arith)
            requires
                n == m + 1,
        ;
        assert(m * k <= n * k) by (nonlinear_arith)
            requires
                n == m + 1,
                k > 0,
        ;
    } else {
        assert(n * k == 0) by (nonlinear_arith)
            requires
                n == 0,
        ;
    }
}

/// `(a + k - 1) / k` is the least `n` with `n * k >= a`.
proof fn lemma_ceil_div(a: int, k: int)
    requires
        a >= 1,
        k >= 1,
    ensures
        (a + k - 1) / k >= 1,
        ((a + k - 1) / k) * k >= a,
        ((a + k - 1) / k - 1) * k < a,
{
    let x = a + k - 1;
    let q = x / k;
    lemma_fundamental_div_mod(x, k);
    lemma_mod_pos_bound(x, k);
    assert(q * k >= a && (q - 1) * k < a && q >= 1) by (nonlinear_arith)
        requires
            x == k * q + x % k,
            0 <= x % k < k,
            x == a + k - 1,
            a >= 1,
            k >= 1,
    ;
}

/// Every time-scale that advances at least one slice per frame finishes an
/// animation started at slice 0: after `updates_to_finish(scale)` updates
/// (at least one) the terminal slice is reached, and after fewer it is not.
/// A scale so small that a frame advances no slice (scale 0, for one) never
/// finishes.
pub proof fn lemma_animation_finishes(scale: int)
    requires
        frame_slices(scale) > 0,
    ensures
        updates_to_finish(scale) >= 1,
        slice_after(0, scale, updates_to_finish(scale) as nat) == ANIM_FRAME_SLICES,
        forall|n: nat| n < updates_to_finish(scale) ==> #[trigger] slice_after(0, scale, n)
            < ANIM_FRAME_SLICES,
{
    let k = frame_slices(scale);
    let total = updates_to_finish(scale);
    lemma_ceil_div(ANIM_FRAME_SLICES as int, k);
    lemma_slice_after_from_start(scale, total as nat);
    assert forall|n: nat| n < total implies #[trigger] slice_after(0, scale, n) < ANIM_FRAME_SLICES by {
        lemma_slice_after_from_start(scale, n);
        lemma_mul_inequality(n as int, total - 1, k);
    }
}

/// A larger time-scale advances at least as many slices per frame.
proof fn lemma_frame_slices_monotone(s1: int, s2: int)
    requires
        0 <= s1 <= s2,
    ensures
        frame_slices(s1) <= frame_slices(s2),
{
    lemma_animation_constants();
    let a1 = SLICES_PER_TARGET_FRAME * s1;
    let a2 = SLICES_PER_TARGET_FRAME * s2;
    lemma_mul_inequality(s1, s2, SLICES_PER_TARGET_FRAME as int);
    lemma_div_is_ordered(2 * a1 + SCALE_ONE, 2 * a2 + SCALE_ONE, 2 * SCALE_ONE);
}

/// A larger time-scale never needs more updates to finish an animation.
pub proof fn lemma_faster_finishes_sooner(s1: int, s2: int)
    requires
        0 <= s1 <= s2,
        frame_slices(s1) > 0,
    ensures
        updates_to_finish(s2) <= updates_to_finish(s1),
{
    lemma_frame_slices_monotone(s1, s2);
    let k1 = frame_slices(s1);
    let k2 = frame_slices(s2);
    let n1 = updates_to_finish(s1);
    let n2 = updates_to_finish(s2);
    lemma_ceil_div(ANIM_FRAME_SLICES as int, k1);
    lemma_ceil_div(ANIM_FRAME_SLICES as int, k2);
    if n2 > n1 {
        lemma_mul_inequality(n1, n2 - 1, k2);
        lemma_mul_inequality(k1, k2, n1);
        assert(n1 * k1 == k1 * n1 && n1 * k2 == k2 * n1) by (nonlinear_arith);
    }
}

/// A rounded quotient grows with its numerator.
proof fn lemma_round_div_monotone(a1: int, a2: int, b: int)
    requires
        a1 <= a2,
        0 < b,
    ensures
        round_div(a1, b) <= round_div(a2, b),
{
    lemma_div_is_ordered(2 * a1 + b, 2 * a2 + b, 2 * b);
}

/// A size between `small` and `big` does not grow through the shrink phase,
/// is `small` through the move phase, and does not shrink through the grow
/// phase.
proof fn lemma_size_monotone(small: int, big: int, s1: int, s2: int)
    requires
        0 <= small <= big,
        0 <= s1 <= s2 <= ANIM_FRAME_SLICES,
    ensures
        s2 < SLICE_FROM_MOVEMENT_SHIFT ==> size_at(small, big, s2) <= size_at(small, big, s1),
        SLICE_FROM_MOVEMENT_SHIFT <= s1 && s2 < SLICE_FROM_MOVEMENT_TO_BIG ==> size_at(
            small,
            big,
            s1,
        ) == UNIT * small && size_at(small, big, s2) == UNIT * small,
        SLICE_FROM_MOVEMENT_TO_BIG <= s1 ==> size_at(small, big, s1) <= size_at(small, big, s2),
{
    lemma_animation_constants();
    let n = big - small;
    if s2 < SLICE_FROM_MOVEMENT_SHIFT {
        lemma_mul_inequality(
            SLICE_FROM_MOVEMENT_SHIFT - s2,
            SLICE_FROM_MOVEMENT_SHIFT - s1,
            n,
        );
        assert(n * (SLICE_FROM_MOVEMENT_SHIFT - s2) <= n * (SLICE_FROM_MOVEMENT_SHIFT - s1)) by (nonlinear_arith)
            requires
                (SLICE_FROM_MOVEMENT_SHIFT - s2) * n <= (SLICE_FROM_MOVEMENT_SHIFT - s1) * n,
        ;
        lemma_round_div_monotone(
            n * (SLICE_FROM_MOVEMENT_SHIFT - s2),
            n * (SLICE_FROM_MOVEMENT_SHIFT - s1),
            (SLICE_FROM_MOVEMENT_SHIFT - SLICE_FROM_MOVEMENT_TO_SMALL) as int,
        );
    }
    if SLICE_FROM_MOVEMENT_TO_BIG <= s1 {
        lemma_mul_inequality(s1 - SLICE_FROM_MOVEMENT_TO_BIG, s2 - SLICE_FROM_MOVEMENT_TO_BIG, n);
        assert(n * (s1 - SLICE_FROM_MOVEMENT_TO_BIG) <= n * (s2 - SLICE_FROM_MOVEMENT_TO_BIG)) by (nonlinear_arith)
            requires
                (s1 - SLICE_FROM_MOVEMENT_TO_BIG) * n <= (s2 - SLICE_FROM_MOVEMENT_TO_BIG) * n,
        ;
        lemma_round_div_monotone(
            n * (s1 - SLICE_FROM_MOVEMENT_TO_BIG),
            n * (s2 - SLICE_FROM_MOVEMENT_TO_BIG),
            (ANIM_FRAME_SLICES - SLICE_FROM_MOVEMENT_TO_BIG) as int,
        );
    }
}

/// Width and height do not grow through the shrink phase, are the small
/// size throughout the move phase, and do not shrink through the grow phase.
pub proof fn lemma_size_phases(s1: int, s2: int)
    requires
        0 <= s1 <= s2 <= ANIM_FRAME_SLICES,
    ensures
        s2 < SLICE_FROM_MOVEMENT_SHIFT ==> width_at(s2) <= width_at(s1) && height_at(s2)
            <= height_at(s1),
        SLICE_FROM_MOVEMENT_SHIFT <= s1 && s2 < SLICE_FROM_MOVEMENT_TO_BIG ==> {
            &&& width_at(s1) == UNIT * WIDTH_SMALL
            &&& width_at(s2) == UNIT * WIDTH_SMALL
            &&& height_at(s1) == UNIT * HEIGHT_SMALL
            &&& height_at(s2) == UNIT * HEIGHT_SMALL
        },
        SLICE_FROM_MOVEMENT_TO_BIG <= s1 ==> width_at(s1) <= width_at(s2) && height_at(s1)
            <= height_at(s2),
{
    lemma_size_monotone(WIDTH_SMALL as int, WIDTH_BIG as int, s1, s2);
    lemma_size_monotone(HEIGHT_SMALL as int, HEIGHT_BIG as int, s1, s2);
}

} // verus!
