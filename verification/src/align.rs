//! Rounding up to a multiple of an alignment, with the facts about it that
//! the layouts rest on.

use vstd::arithmetic::div_mod::{
    lemma_fundamental_div_mod, lemma_fundamental_div_mod_converse, lemma_mod_multiples_basic,
};
use vstd::arithmetic::mul::lemma_mul_inequality;
use vstd::prelude::*;

verus! {

/// `value` rounded up to the next multiple of `alignment`.
pub open spec fn spec_align_up(value: int, alignment: int) -> int
    recommends
        alignment > 0,
{
    ((value + alignment - 1) / alignment) * alignment
}

/// Whether `value` is a whole multiple of `alignment`.
pub open spec fn spec_is_aligned(value: int, alignment: int) -> bool
    recommends
        alignment > 0,
{
    value % alignment == 0
}

/// Rounding up leaves a multiple where it is and moves any other value by
/// what it lacks to the next multiple.
pub proof fn lemma_align_up_by_remainder(value: int, alignment: int)
    requires
        value >= 0,
        alignment > 0,
    ensures
        value % alignment == 0 ==> spec_align_up(value, alignment) == value,
        value % alignment != 0 ==> spec_align_up(value, alignment) == value + alignment - value
            % alignment,
{
    let q = value / alignment;
    let r = value % alignment;
    lemma_fundamental_div_mod(value, alignment);
    if r == 0 {
        lemma_fundamental_div_mod_converse(value + alignment - 1, alignment, q, alignment - 1);
    } else {
        assert((q + 1) * alignment == q * alignment + alignment) by (nonlinear_arith);
        lemma_fundamental_div_mod_converse(value + alignment - 1, alignment, q + 1, r - 1);
    }
}

/// The rounded value is a multiple of the alignment, is not below the value
/// and lies less than one alignment above it.
pub proof fn lemma_align_up_bounds(value: int, alignment: int)
    requires
        value >= 0,
        alignment > 0,
    ensures
        spec_is_aligned(spec_align_up(value, alignment), alignment),
        value <= spec_align_up(value, alignment) < value + alignment,
{
    lemma_align_up_by_remainder(value, alignment);
    lemma_mod_multiples_basic((value + alignment - 1) / alignment, alignment);
}

/// No multiple of the alignment lies between the value and its rounding.
pub proof fn lemma_align_up_is_least(value: int, alignment: int, multiple: int)
    requires
        value >= 0,
        alignment > 0,
        multiple >= value,
        spec_is_aligned(multiple, alignment),
    ensures
        spec_align_up(value, alignment) <= multiple,
{
    lemma_align_up_bounds(value, alignment);
    let up = spec_align_up(value, alignment);
    if multiple < up {
        let k = (value + alignment - 1) / alignment;
        let m = multiple / alignment;
        lemma_fundamental_div_mod(multiple, alignment);
        assert(m < k) by (nonlinear_arith)
            requires
                m * alignment < k * alignment,
                alignment > 0,
        ;
        lemma_mul_inequality(m, k - 1, alignment);
        assert((k - 1) * alignment == k * alignment - alignment) by (nonlinear_arith);
    }
}

/// Rounding up is monotone and keeps a multiple in place.
pub proof fn lemma_align_up_of_aligned(value: int, alignment: int)
    requires
        value >= 0,
        alignment > 0,
        spec_is_aligned(value, alignment),
    ensures
        spec_align_up(value, alignment) == value,
{
    lemma_align_up_by_remainder(value, alignment);
}

/// The sum of two multiples of an alignment is a multiple of it.
pub proof fn lemma_aligned_sum(a: int, b: int, alignment: int)
    requires
        alignment > 0,
        spec_is_aligned(a, alignment),
        spec_is_aligned(b, alignment),
    ensures
        spec_is_aligned(a + b, alignment),
{
    lemma_fundamental_div_mod(a, alignment);
    lemma_fundamental_div_mod(b, alignment);
    let qa = a / alignment;
    let qb = b / alignment;
    assert(a + b == (qa + qb) * alignment) by (nonlinear_arith)
        requires
            a == alignment * qa,
            b == alignment * qb,
    ;
    lemma_mod_multiples_basic(qa + qb, alignment);
}

/// Rounds `value` up to the next multiple of `alignment`. There is no such
/// multiple for an alignment of zero, and none that the type holds when the
/// rounded value would pass its upper limit.
pub fn align_up(value: u64, alignment: u64) -> (aligned: Option<u64>)
    ensures
        aligned == if alignment == 0 || spec_align_up(value as int, alignment as int) > u64::MAX {
            None
        } else {
            Some(spec_align_up(value as int, alignment as int) as u64)
        },
{
    if alignment == 0 {
        return None;
    }
    proof {
        lemma_align_up_by_remainder(value as int, alignment as int);
    }
    let rest: u64 = value % alignment;
    if rest == 0 {
        Some(value)
    } else {
        value.checked_add(alignment - rest)
    }
}

/// The same rounding on 32-bit sizes.
pub fn align_up_u32(value: u32, alignment: u32) -> (aligned: Option<u32>)
    ensures
        aligned == if alignment == 0 || spec_align_up(value as int, alignment as int) > u32::MAX {
            None
        } else {
            Some(spec_align_up(value as int, alignment as int) as u32)
        },
{
    if alignment == 0 {
        return None;
    }
    proof {
        lemma_align_up_by_remainder(value as int, alignment as int);
    }
    let rest: u32 = value % alignment;
    if rest == 0 {
        Some(value)
    } else {
        value.checked_add(alignment - rest)
    }
}

} // verus!
