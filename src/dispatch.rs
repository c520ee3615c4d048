//! Workgroup counts and the capacity clamp applied before every dispatch.

use vstd::prelude::*;

verus! {

/// `a / b` rounded up.
pub open spec fn div_ceil(a: nat, b: nat) -> nat {
    if a % b == 0 {
        a / b
    } else {
        a / b + 1
    }
}

/// The smaller of a requested count and a capacity.
pub open spec fn clamped(requested: nat, capacity: nat) -> nat {
    if requested <= capacity {
        requested
    } else {
        capacity
    }
}

/// Number of workgroups of `workgroup_size` invocations that cover
/// `element_count` elements: the least number whose invocations reach every
/// element.
pub fn workgroup_count(element_count: u32, workgroup_size: u32) -> (r: u32)
    requires
        workgroup_size > 0,
    ensures
        r == div_ceil(element_count as nat, workgroup_size as nat),
        r * workgroup_size >= element_count,
        r * workgroup_size < element_count + workgroup_size,
{
    let q: u32 = element_count / workgroup_size;
    let rem: u32 = element_count % workgroup_size;
    assert(element_count == workgroup_size * q + rem) by {
        vstd::arithmetic::div_mod::lemma_fundamental_div_mod(
            element_count as int,
            workgroup_size as int,
        );
    }
    assert(q * workgroup_size == workgroup_size * q) by (nonlinear_arith);
    if rem == 0 {
        q
    } else {
        assert(q < u32::MAX) by (nonlinear_arith)
            requires
                element_count == workgroup_size * q + rem,
                rem > 0,
                rem < workgroup_size,
                element_count <= u32::MAX,
        ;
        assert((q + 1) * workgroup_size == q * workgroup_size + workgroup_size) by (nonlinear_arith);
        q + 1
    }
}

/// Workgroups per axis for a 2D grid of `width` by `height` cells, with
/// workgroups of `group_x` by `group_y` invocations.
pub fn workgroups_2d(width: u32, height: u32, group_x: u32, group_y: u32) -> (r: (u32, u32, u32))
    requires
        group_x > 0,
        group_y > 0,
    ensures
        r.0 == div_ceil(width as nat, group_x as nat),
        r.1 == div_ceil(height as nat, group_y as nat),
        r.2 == 1,
{
    (workgroup_count(width, group_x), workgroup_count(height, group_y), 1)
}

/// A requested element count limited to the allocated capacity.
pub fn clamp_count(requested: u32, capacity: u32) -> (r: u32)
    ensures
        r == clamped(requested as nat, capacity as nat),
        r <= capacity,
{
    if requested <= capacity {
        requested
    } else {
        capacity
    }
}

} // verus!
