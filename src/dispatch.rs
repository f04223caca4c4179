use vstd::prelude::*;
use vstd::arithmetic::div_mod::{lemma_div_multiples_vanish_fancy, lemma_fundamental_div_mod};

use crate::resources::Extent;

verus! {

/// Smallest number of work groups of `local` invocations that covers `extent`.
pub open spec fn ceil_div(extent: int, local: int) -> int {
    (extent + local - 1) / local
}

proof fn lemma_ceil_div_parts(e: int, l: int)
    requires
        0 <= e,
        0 < l,
    ensures
        e % l == 0 ==> ceil_div(e, l) == e / l,
        e % l != 0 ==> ceil_div(e, l) == e / l + 1,
{
    lemma_fundamental_div_mod(e, l);
    let q = e / l;
    let m = e % l;
    assert(e + l - 1 == l * q + (m + l - 1));
    if m == 0 {
        lemma_div_multiples_vanish_fancy(q, l - 1, l);
    } else {
        assert(l * q + (m + l - 1) == l * (q + 1) + (m - 1)) by (nonlinear_arith);
        lemma_div_multiples_vanish_fancy(q + 1, m - 1, l);
    }
}

/// Number of work groups needed along one axis so that `groups * local >= extent`.
pub fn groups_for(extent: u32, local: u32) -> (r: u32)
    requires
        local > 0,
    ensures
        r as int == ceil_div(extent as int, local as int),
{
    let q = extent / local;
    proof {
        lemma_ceil_div_parts(extent as int, local as int);
    }
    if extent % local == 0 {
        q
    } else {
        proof {
            assert(local >= 2);
            assert(q <= extent) by (nonlinear_arith)
                requires q == extent / local, local >= 2;
            assert(q * local <= extent) by (nonlinear_arith)
                requires q == extent / local, local >= 2;
            assert(q * 2 <= q * local) by (nonlinear_arith)
                requires local >= 2, q >= 0;
        }
        q + 1
    }
}

/// The dispatch grid that a compute stage with work groups of size `local`
/// needs so that it covers every texel of a texture of size `extent`.
pub fn required_grid(extent: Extent, local: Extent) -> (grid: Extent)
    requires
        local.width > 0,
        local.height > 0,
        local.depth > 0,
    ensures
        grid.width as int == ceil_div(extent.width as int, local.width as int),
        grid.height as int == ceil_div(extent.height as int, local.height as int),
        grid.depth as int == ceil_div(extent.depth as int, local.depth as int),
{
    Extent {
        width: groups_for(extent.width, local.width),
        height: groups_for(extent.height, local.height),
        depth: groups_for(extent.depth, local.depth),
    }
}

/// A grid of `ceil_div(e, l)` groups covers the extent, and one group fewer
/// does not: the required grid is the least covering one.
pub proof fn lemma_grid_is_least_cover(e: int, l: int)
    requires
        0 <= e,
        0 < l,
    ensures
        ceil_div(e, l) * l >= e,
        ceil_div(e, l) >= 0,
        (ceil_div(e, l) - 1) * l < e || ceil_div(e, l) == 0,
{
    lemma_ceil_div_parts(e, l);
    lemma_fundamental_div_mod(e, l);
    let q = e / l;
    let m = e % l;
    assert(q >= 0) by (nonlinear_arith)
        requires e == l * q + m, 0 <= m < l, 0 <= e, 0 < l;
    if m == 0 {
        assert(q * l == e) by (nonlinear_arith)
            requires e == l * q + m, m == 0;
        assert((q - 1) * l < e || q == 0) by (nonlinear_arith)
            requires q * l == e, 0 < l, q >= 0;
    } else {
        assert((q + 1) * l >= e) by (nonlinear_arith)
            requires e == l * q + m, 0 <= m < l;
        assert(q * l < e) by (nonlinear_arith)
            requires e == l * q + m, 0 < m;
    }
}

} // verus!
