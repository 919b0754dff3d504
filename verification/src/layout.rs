//! The layout builder: partitioning the canvas into per-match rectangles.
//!
//! Each match node is handed a rectangle; its two sub-brackets evenly split
//! the vertical span (the midpoint truncates, consistently for both
//! children, so the spans tile without gap or overlap) and sit one column
//! width closer to the first round, which occupies the leftmost column.

use vstd::prelude::*;

use crate::tree::TournamentTree;

verus! {

/// The geometric counterpart of a bracket: each match annotated with the
/// rectangle it occupies, as a vertical span `[y_top, y_bottom]` and a
/// horizontal column `[x_left, x_left + width]`.
pub enum RenderingTree {
    Empty,
    Node {
        left: Box<RenderingTree>,
        right: Box<RenderingTree>,
        y_top: u32,
        y_bottom: u32,
        x_left: u32,
        width: u32,
        tournament_match: crate::tree::TournamentMatch,
    },
}

/// The rectangle partition that the layout builder computes: an empty
/// bracket occupies nothing; a match keeps the whole rectangle it was
/// handed, and its sub-brackets split the vertical span at the truncated
/// midpoint, one column width further from the root (clamped at the canvas
/// edge, where only empty sub-brackets can sit).
pub open spec fn spec_layout(
    t: TournamentTree,
    y_top: u32,
    y_bottom: u32,
    x_left: u32,
    width: u32,
) -> RenderingTree
    decreases t,
{
    match t {
        TournamentTree::Empty => RenderingTree::Empty,
        TournamentTree::Node { left, right, tournament_match } => {
            let y_mid = ((y_top + y_bottom) / 2) as u32;
            let child_x = if width <= x_left {
                (x_left - width) as u32
            } else {
                0u32
            };
            RenderingTree::Node {
                left: Box::new(spec_layout(*left, y_top, y_mid, child_x, width)),
                right: Box::new(spec_layout(*right, y_mid, y_bottom, child_x, width)),
                y_top,
                y_bottom,
                x_left,
                width,
                tournament_match,
            }
        },
    }
}

/// Midpoint alignment of a rectangle partition: at every match node, a
/// non-empty left child ends, and a non-empty right child starts, exactly at
/// the truncated midpoint of the parent's vertical span, and both children
/// sit one column width to the left of the parent (clamped at the canvas
/// edge), spanning the parent's own column width.
pub open spec fn aligned(t: RenderingTree) -> bool
    decreases t,
{
    match t {
        RenderingTree::Empty => true,
        RenderingTree::Node { left, right, y_top, y_bottom, x_left, width, .. } => {
            let y_mid = (y_top + y_bottom) / 2;
            let child_x = if width <= x_left {
                x_left - width
            } else {
                0
            };
            &&& ((*left) matches RenderingTree::Node { y_top: lt, y_bottom: lb, x_left: lx, width: lw, .. }
                ==> lt == y_top && lb == y_mid && lx == child_x && lw == width)
            &&& ((*right) matches RenderingTree::Node { y_top: rt, y_bottom: rb, x_left: rx, width: rw, .. }
                ==> rt == y_mid && rb == y_bottom && rx == child_x && rw == width)
            &&& aligned(*left)
            &&& aligned(*right)
        },
    }
}

/// Law: every rendering tree the layout builder produces is midpoint
/// aligned — children tile their parent's vertical span with no gap and no
/// overlap, meeting exactly at the truncated midpoint, one column further
/// from the root.
pub proof fn lemma_layout_aligned(
    t: TournamentTree,
    y_top: u32,
    y_bottom: u32,
    x_left: u32,
    width: u32,
)
    requires
        y_top <= y_bottom,
        y_bottom <= u32::MAX / 2,
    ensures
        aligned(spec_layout(t, y_top, y_bottom, x_left, width)),
    decreases t,
{
    match t {
        TournamentTree::Empty => {},
        TournamentTree::Node { left, right, tournament_match } => {
            let y_mid = ((y_top + y_bottom) / 2) as u32;
            let child_x = if width <= x_left {
                (x_left - width) as u32
            } else {
                0u32
            };
            lemma_layout_aligned(*left, y_top, y_mid, child_x, width);
            lemma_layout_aligned(*right, y_mid, y_bottom, child_x, width);
        },
    }
}

/// Well-formedness of a rendering tree: every match node occupies a
/// non-degenerate rectangle — its vertical span is non-empty and its column
/// has positive width.
pub open spec fn well_formed(t: RenderingTree) -> bool
    decreases t,
{
    match t {
        RenderingTree::Empty => true,
        RenderingTree::Node { left, right, y_top, y_bottom, width, .. } => {
            &&& y_top < y_bottom
            &&& width > 0
            &&& well_formed(*left)
            &&& well_formed(*right)
        },
    }
}

/// Law: a rectangle of positive width whose vertical span holds at least one
/// unit per leaf-level slot of the bracket is partitioned into non-degenerate
/// rectangles only.
pub proof fn lemma_layout_well_formed(
    t: TournamentTree,
    y_top: u32,
    y_bottom: u32,
    x_left: u32,
    width: u32,
)
    requires
        y_top <= y_bottom,
        y_bottom <= u32::MAX / 2,
        width > 0,
        t is Node ==> y_bottom - y_top >= crate::extent::pow2(
            (crate::tree::tree_depth(t) - 1) as nat,
        ),
    ensures
        well_formed(spec_layout(t, y_top, y_bottom, x_left, width)),
    decreases t,
{
    match t {
        TournamentTree::Empty => {},
        TournamentTree::Node { left, right, tournament_match } => {
            let d = crate::tree::tree_depth(t);
            let span = y_bottom - y_top;
            crate::extent::lemma_pow2_pos((d - 1) as nat);
            let y_mid = ((y_top + y_bottom) / 2) as u32;
            assert(y_top + y_bottom == 2 * y_top + span);
            assert(y_mid == y_top + span / 2);
            let child_x = if width <= x_left {
                (x_left - width) as u32
            } else {
                0u32
            };
            if crate::tree::tree_depth(*left) > 0 || crate::tree::tree_depth(*right) > 0 {
                assert(crate::extent::pow2((d - 1) as nat) == 2 * crate::extent::pow2(
                    (d - 2) as nat,
                ));
                assert(span / 2 >= crate::extent::pow2((d - 2) as nat));
                if crate::tree::tree_depth(*left) > 0 {
                    crate::extent::lemma_pow2_monotone(
                        (crate::tree::tree_depth(*left) - 1) as nat,
                        (d - 2) as nat,
                    );
                }
                if crate::tree::tree_depth(*right) > 0 {
                    crate::extent::lemma_pow2_monotone(
                        (crate::tree::tree_depth(*right) - 1) as nat,
                        (d - 2) as nat,
                    );
                }
            }
            lemma_layout_well_formed(*left, y_top, y_mid, child_x, width);
            lemma_layout_well_formed(*right, y_mid, y_bottom, child_x, width);
        },
    }
}

/// Number of match nodes in a rendering tree.
pub open spec fn node_count(t: RenderingTree) -> nat
    decreases t,
{
    match t {
        RenderingTree::Empty => 0,
        RenderingTree::Node { left, right, .. } => 1 + node_count(*left) + node_count(*right),
    }
}

/// Law: the layout builder keeps every match and invents none — the
/// rendering tree has exactly one node per match of the bracket.
pub proof fn lemma_layout_node_count(
    t: TournamentTree,
    y_top: u32,
    y_bottom: u32,
    x_left: u32,
    width: u32,
)
    ensures
        node_count(spec_layout(t, y_top, y_bottom, x_left, width)) == crate::tree::match_count(t),
    decreases t,
{
    match t {
        TournamentTree::Empty => {},
        TournamentTree::Node { left, right, tournament_match } => {
            let y_mid = ((y_top + y_bottom) / 2) as u32;
            let child_x = if width <= x_left {
                (x_left - width) as u32
            } else {
                0u32
            };
            lemma_layout_node_count(*left, y_top, y_mid, child_x, width);
            lemma_layout_node_count(*right, y_mid, y_bottom, child_x, width);
        },
    }
}

/// Builds the rendering tree for `root` inside the given rectangle: an empty
/// bracket renders as nothing, a match keeps the whole rectangle and hands
/// each sub-bracket half the vertical span, one column to the left.
pub fn to_rendering_tree(
    root: &TournamentTree,
    y_top: u32,
    y_bottom: u32,
    x_left: u32,
    width: u32,
) -> (r: RenderingTree)
    requires
        y_top <= y_bottom,
        y_bottom <= u32::MAX / 2,
    ensures
        r == spec_layout(*root, y_top, y_bottom, x_left, width),
        aligned(r),
    decreases *root,
{
    proof {
        lemma_layout_aligned(*root, y_top, y_bottom, x_left, width);
    }
    match root {
        TournamentTree::Empty => RenderingTree::Empty,
        TournamentTree::Node { left, right, tournament_match } => {
            let y_mid = (y_top + y_bottom) / 2;
            let child_x = if width <= x_left {
                x_left - width
            } else {
                0
            };
            RenderingTree::Node {
                left: Box::new(to_rendering_tree(&**left, y_top, y_mid, child_x, width)),
                right: Box::new(to_rendering_tree(&**right, y_mid, y_bottom, child_x, width)),
                y_top,
                y_bottom,
                x_left,
                width,
                tournament_match: tournament_match.clone(),
            }
        },
    }
}

} // verus!
