use vstd::prelude::*;

verus! {

/// Number of workgroups along each axis of a dispatch.
#[derive(Clone, Copy, Debug, PartialEq, Eq, Structural)]
pub struct WorkgroupCount {
    pub x: u32,
    pub y: u32,
    pub z: u32,
}

/// Groups of `local_size` invocations needed to cover `extent` texels: the
/// quotient, rounded up.
pub open spec fn groups_needed(extent: nat, local_size: nat) -> nat
    recommends
        local_size > 0,
{
    if extent % local_size == 0 {
        extent / local_size
    } else {
        extent / local_size + 1
    }
}

/// The dispatch for a `width` by `height` image with square workgroups of side
/// `local_size`: one layer, each spatial axis rounded up.
pub open spec fn dispatch_for(width: nat, height: nat, local_size: nat) -> WorkgroupCount
    recommends
        local_size > 0,
{
    WorkgroupCount {
        x: groups_needed(width, local_size) as u32,
        y: groups_needed(height, local_size) as u32,
        z: 1,
    }
}

/// The groups counted by `groups_needed` cover the extent, and there are never
/// more groups than texels.
pub proof fn lemma_groups_cover(extent: nat, local_size: nat)
    requires
        local_size > 0,
    ensures
        groups_needed(extent, local_size) * local_size >= extent,
        groups_needed(extent, local_size) <= extent,
{
    let q = extent / local_size;
    let r = extent % local_size;
    assert(extent == q * local_size + r && r < local_size) by (nonlinear_arith)
        requires
            local_size > 0,
            q == extent / local_size,
            r == extent % local_size,
    ;
    assert((q + 1) * local_size == q * local_size + local_size) by (nonlinear_arith);
    assert(q <= q * local_size) by (nonlinear_arith)
        requires
            local_size > 0,
    ;
}

/// No smaller count covers the extent: any `n` groups that cover it are at
/// least `groups_needed`.
pub proof fn lemma_groups_least(extent: nat, local_size: nat, n: nat)
    requires
        local_size > 0,
        n * local_size >= extent,
    ensures
        n >= groups_needed(extent, local_size),
{
    let q = extent / local_size;
    let r = extent % local_size;
    assert(extent == q * local_size + r && r < local_size) by (nonlinear_arith)
        requires
            local_size > 0,
            q == extent / local_size,
            r == extent % local_size,
    ;
    if n < groups_needed(extent, local_size) {
        if r == 0 {
            assert(n * local_size < q * local_size) by (nonlinear_arith)
                requires
                    n < q,
                    local_size > 0,
            ;
        } else {
            assert(n * local_size <= q * local_size) by (nonlinear_arith)
                requires
                    n <= q,
                    local_size > 0,
            ;
        }
    }
}

/// Workgroups needed along one axis.
pub fn workgroup_count(extent: u32, local_size: u32) -> (count: u32)
    requires
        local_size > 0,
    ensures
        count == groups_needed(extent as nat, local_size as nat),
{
    proof {
        lemma_groups_cover(extent as nat, local_size as nat);
    }
    let whole: u32 = extent / local_size;
    if extent % local_size == 0 {
        whole
    } else {
        whole + 1
    }
}

/// Workgroup counts for a `width` by `height` image.
pub fn dispatch_size(width: u32, height: u32, local_size: u32) -> (count: WorkgroupCount)
    requires
        local_size > 0,
    ensures
        count == dispatch_for(width as nat, height as nat, local_size as nat),
        count.x == groups_needed(width as nat, local_size as nat),
        count.y == groups_needed(height as nat, local_size as nat),
        count.z == 1,
{
    WorkgroupCount {
        x: workgroup_count(width, local_size),
        y: workgroup_count(height, local_size),
        z: 1,
    }
}

} // verus!
