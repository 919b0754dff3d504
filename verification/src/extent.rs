//! Overall canvas extents for a bracket of a given depth.
//!
//! A bracket of depth `d` stacks `2^(d - 1)` leaf-level match boxes without
//! gaps, so the canvas height is the base box height times `2^(d - 1)`; each
//! round occupies one fixed-width column, so the canvas width is the base box
//! width times `d`.

use vstd::prelude::*;

verus! {

/// `2^n`, the number of leaf-level slots of a tree with `n + 1` levels.
pub open spec fn pow2(n: nat) -> nat
    decreases n,
{
    if n == 0 {
        1
    } else {
        2 * pow2((n - 1) as nat)
    }
}

pub proof fn lemma_pow2_pos(n: nat)
    ensures
        pow2(n) >= 1,
    decreases n,
{
    if n > 0 {
        lemma_pow2_pos((n - 1) as nat);
    }
}

pub proof fn lemma_pow2_monotone(a: nat, b: nat)
    requires
        a <= b,
    ensures
        pow2(a) <= pow2(b),
    decreases b,
{
    if a < b {
        lemma_pow2_monotone(a, (b - 1) as nat);
    }
}

/// The canvas height owed to a bracket of depth `tree_depth` when one match
/// box is `base_height` tall: `base_height * 2^(tree_depth - 1)`.
pub open spec fn spec_boundary_height(base_height: u32, tree_depth: u32) -> int
    recommends
        tree_depth >= 1,
{
    base_height * pow2((tree_depth - 1) as nat)
}

/// The canvas width owed to a bracket of depth `tree_depth` when one round's
/// column is `base_width` wide: `base_width * tree_depth`.
pub open spec fn spec_boundary_width(base_width: u32, tree_depth: u32) -> int {
    base_width * tree_depth
}

/// Law: a depth-1 bracket is exactly one base box tall, and in general the
/// boundary height is the base height doubled once per level past the first.
pub proof fn lemma_boundary_height_law(base_height: u32, tree_depth: u32)
    requires
        tree_depth >= 2,
    ensures
        spec_boundary_height(base_height, 1) == base_height,
        spec_boundary_height(base_height, tree_depth)
            == 2 * spec_boundary_height(base_height, (tree_depth - 1) as u32),
{
    assert(pow2((1u32 - 1) as nat) == 1);
    assert(pow2((tree_depth - 1) as nat) == 2 * pow2((tree_depth - 2) as nat));
    assert(base_height * pow2((tree_depth - 1) as nat) == 2 * (base_height * pow2(
        (tree_depth - 2) as nat,
    ))) by (nonlinear_arith)
        requires
            pow2((tree_depth - 1) as nat) == 2 * pow2((tree_depth - 2) as nat),
    ;
}

/// Total canvas height for a bracket of depth `tree_depth`, with match boxes
/// `base_height` tall.
pub fn tree_boundary_height(base_height: u32, tree_depth: u32) -> (h: u32)
    requires
        tree_depth >= 1,
        spec_boundary_height(base_height, tree_depth) <= u32::MAX,
    ensures
        h == spec_boundary_height(base_height, tree_depth),
{
    let mut level: u32 = 1;
    let mut h: u32 = base_height;
    proof {
        assert(pow2((1u32 - 1) as nat) == 1);
    }
    while level < tree_depth
        invariant
            1 <= level <= tree_depth,
            h == spec_boundary_height(base_height, level),
            spec_boundary_height(base_height, tree_depth) <= u32::MAX,
        decreases tree_depth - level,
    {
        proof {
            assert(pow2(level as nat) == 2 * pow2((level - 1) as nat));
            assert(2 * h == base_height * pow2(level as nat)) by (nonlinear_arith)
                requires
                    h == base_height * pow2((level - 1) as nat),
                    pow2(level as nat) == 2 * pow2((level - 1) as nat),
            ;
            lemma_pow2_monotone(level as nat, (tree_depth - 1) as nat);
            assert(base_height * pow2(level as nat) <= base_height * pow2(
                (tree_depth - 1) as nat,
            )) by (nonlinear_arith)
                requires
                    pow2(level as nat) <= pow2((tree_depth - 1) as nat),
                    base_height >= 0,
            ;
        }
        h = 2 * h;
        level = level + 1;
    }
    h
}

/// Total canvas width for a bracket of depth `tree_depth`, with one column
/// `base_width` wide per round.
pub fn tree_boundary_width(base_width: u32, tree_depth: u32) -> (w: u32)
    requires
        spec_boundary_width(base_width, tree_depth) <= u32::MAX,
    ensures
        w == spec_boundary_width(base_width, tree_depth),
{
    base_width * tree_depth
}

} // verus!
