//! The full render pass: measure a bracket, derive its extents, lay it out,
//! and walk the layout into draw commands.

use vstd::prelude::*;

use crate::extent::{
    lemma_pow2_monotone, lemma_pow2_pos, pow2, spec_boundary_height, spec_boundary_width,
    tree_boundary_height, tree_boundary_width,
};
use crate::layout::{spec_layout, to_rendering_tree};
use crate::tree::{depth_of_tree, tree_depth, TournamentTree};
use crate::walk::{drawable, render_tree, walk_commands, DrawCommand, BOX_HEIGHT, BOX_WIDTH};

verus! {

/// What can go wrong when a bracket is rendered. A surface identifier that
/// resolves to no usable drawing target is the host's to report; a base box
/// height or width of zero is rejected before any layout work.
#[derive(Debug, PartialEq, Eq, Structural)]
pub enum RenderError {
    InvalidSurface,
    InvalidExtentParameters,
}

/// The extents of a non-empty bracket stay within the coordinate range: the
/// boundary height (including every vertical midpoint computation under it)
/// and the boundary width fit in `u32`.
pub open spec fn extents_fit(tree: TournamentTree, base_height: u32, base_width: u32) -> bool {
    let d = tree_depth(tree) as u32;
    &&& tree_depth(tree) <= u32::MAX
    &&& spec_boundary_height(base_height, d) <= u32::MAX / 2
    &&& spec_boundary_width(base_width, d) <= u32::MAX
}

/// The draw commands owed to a non-empty bracket: the rendering tree rooted
/// at the rightmost column of the overall extents, walked in pre-order.
pub open spec fn bracket_commands(
    tree: TournamentTree,
    base_height: u32,
    base_width: u32,
) -> Seq<DrawCommand>
    recommends
        tree is Node,
        extents_fit(tree, base_height, base_width),
{
    let d = tree_depth(tree) as u32;
    let boundary_height = spec_boundary_height(base_height, d) as u32;
    let boundary_width = spec_boundary_width(base_width, d) as u32;
    walk_commands(
        spec_layout(tree, 0, boundary_height, (boundary_width - base_width) as u32, base_width),
    )
}

/// Law: a rectangle at least one fixed match box wide, whose vertical span
/// holds one `BOX_HEIGHT` per leaf-level slot of the bracket, is partitioned
/// by the layout builder into rectangles that all leave room for the
/// fixed-size match box.
pub proof fn lemma_layout_drawable(
    t: TournamentTree,
    y_top: u32,
    y_bottom: u32,
    x_left: u32,
    width: u32,
)
    requires
        y_top <= y_bottom,
        y_bottom <= u32::MAX / 2,
        width >= BOX_WIDTH,
        x_left + width <= u32::MAX,
        t is Node ==> y_bottom - y_top >= BOX_HEIGHT * pow2((tree_depth(t) - 1) as nat),
    ensures
        drawable(spec_layout(t, y_top, y_bottom, x_left, width)),
    decreases t,
{
    match t {
        TournamentTree::Empty => {},
        TournamentTree::Node { left, right, tournament_match } => {
            let d = tree_depth(t);
            let span = y_bottom - y_top;
            lemma_pow2_pos((d - 1) as nat);
            assert(span >= BOX_HEIGHT);
            let y_mid = ((y_top + y_bottom) / 2) as u32;
            assert(y_top + y_bottom == 2 * y_top + span);
            assert(y_mid == y_top + span / 2);
            assert(y_mid - y_top == span / 2);
            assert(y_bottom - y_mid >= span / 2);
            let child_x = if width <= x_left {
                (x_left - width) as u32
            } else {
                0u32
            };
            if tree_depth(*left) > 0 || tree_depth(*right) > 0 {
                // At least two levels: each child's span still holds one
                // BOX_HEIGHT per leaf-level slot of that child.
                assert(BOX_HEIGHT * pow2((d - 1) as nat) == 2 * (BOX_HEIGHT * pow2(
                    (d - 2) as nat,
                )));
                assert(span / 2 >= BOX_HEIGHT * pow2((d - 2) as nat));
                if tree_depth(*left) > 0 {
                    lemma_pow2_monotone((tree_depth(*left) - 1) as nat, (d - 2) as nat);
                    assert(BOX_HEIGHT * pow2((tree_depth(*left) - 1) as nat) <= BOX_HEIGHT * pow2(
                        (d - 2) as nat,
                    ));
                }
                if tree_depth(*right) > 0 {
                    lemma_pow2_monotone((tree_depth(*right) - 1) as nat, (d - 2) as nat);
                    assert(BOX_HEIGHT * pow2((tree_depth(*right) - 1) as nat) <= BOX_HEIGHT * pow2(
                        (d - 2) as nat,
                    ));
                }
            }
            lemma_layout_drawable(*left, y_top, y_mid, child_x, width);
            lemma_layout_drawable(*right, y_mid, y_bottom, child_x, width);
        },
    }
}

/// Law: a depth-1 bracket — a single match with two empty sub-brackets —
/// lays out as exactly one node, and walking it issues exactly that match's
/// own three commands: one rectangle outline and two text labels, nothing
/// more.
pub proof fn lemma_single_match_render(
    m: crate::tree::TournamentMatch,
    y_top: u32,
    y_bottom: u32,
    x_left: u32,
    width: u32,
)
    ensures
        ({
            let single = TournamentTree::Node {
                left: Box::new(TournamentTree::Empty),
                right: Box::new(TournamentTree::Empty),
                tournament_match: m,
            };
            let laid_out = spec_layout(single, y_top, y_bottom, x_left, width);
            &&& crate::layout::node_count(laid_out) == 1
            &&& (laid_out matches crate::layout::RenderingTree::Node { left, right, .. }
                && *left is Empty && *right is Empty)
            &&& walk_commands(laid_out) == crate::walk::node_commands(
                y_top,
                y_bottom,
                x_left,
                width,
                m.player_1,
                m.player_2,
            )
        }),
{
    reveal_with_fuel(crate::layout::spec_layout, 2);
    reveal_with_fuel(crate::layout::node_count, 2);
    reveal_with_fuel(walk_commands, 2);
    let single = TournamentTree::Node {
        left: Box::new(TournamentTree::Empty),
        right: Box::new(TournamentTree::Empty),
        tournament_match: m,
    };
    let laid_out = spec_layout(single, y_top, y_bottom, x_left, width);
    assert(walk_commands(laid_out) =~= crate::walk::node_commands(
        y_top,
        y_bottom,
        x_left,
        width,
        m.player_1,
        m.player_2,
    ));
}

/// Renders a bracket into the draw command sequence the host must issue.
///
/// An empty bracket draws nothing. A base box height or width of zero is
/// rejected as `InvalidExtentParameters` before any layout work. Otherwise
/// the bracket's depth fixes the overall extents, the layout builder
/// partitions them, and the walk lists every match's box and labels in
/// pre-order. The result depends on nothing but the three arguments, so
/// rendering the same bracket twice yields identical command sequences.
pub fn render_bracket_commands(
    tree: &TournamentTree,
    base_height: u32,
    base_width: u32,
) -> (r: Result<Vec<DrawCommand>, RenderError>)
    requires
        *tree is Node && base_height > 0 && base_width > 0 ==> {
            &&& extents_fit(*tree, base_height, base_width)
            &&& base_height >= BOX_HEIGHT
            &&& base_width >= BOX_WIDTH
        },
    ensures
        *tree is Empty ==> (r matches Ok(cmds) && cmds@ == Seq::<DrawCommand>::empty()),
        *tree is Node && (base_height == 0 || base_width == 0) ==> r == Err::<
            Vec<DrawCommand>,
            RenderError,
        >(RenderError::InvalidExtentParameters),
        *tree is Node && base_height > 0 && base_width > 0 ==> (r matches Ok(cmds) && cmds@
            == bracket_commands(*tree, base_height, base_width) && cmds@.len() == 3
            * crate::tree::match_count(*tree) && cmds@.filter(|c: DrawCommand| c is StrokeRect).len()
            == crate::tree::match_count(*tree) && cmds@.filter(
            |c: DrawCommand| c is CenteredText,
        ).len() == 2 * crate::tree::match_count(*tree)),
{
    match tree {
        TournamentTree::Empty => Ok(Vec::new()),
        TournamentTree::Node { .. } => {
            if base_height == 0 || base_width == 0 {
                return Err(RenderError::InvalidExtentParameters);
            }
            let tree_depth_value = depth_of_tree(tree);
            let boundary_height = tree_boundary_height(base_height, tree_depth_value);
            let boundary_width = tree_boundary_width(base_width, tree_depth_value);
            proof {
                lemma_pow2_pos((tree_depth(*tree) - 1) as nat);
                assert(base_height * pow2((tree_depth(*tree) - 1) as nat) >= base_height)
                    by (nonlinear_arith)
                    requires
                        pow2((tree_depth(*tree) - 1) as nat) >= 1,
                        base_height >= 0,
                ;
                assert(base_width * tree_depth(*tree) >= base_width) by (nonlinear_arith)
                    requires
                        tree_depth(*tree) >= 1,
                        base_width >= 0,
                ;
                assert(base_height * pow2((tree_depth(*tree) - 1) as nat) >= BOX_HEIGHT * pow2(
                    (tree_depth(*tree) - 1) as nat,
                )) by (nonlinear_arith)
                    requires
                        base_height >= BOX_HEIGHT,
                        pow2((tree_depth(*tree) - 1) as nat) >= 1,
                ;
                assert(boundary_height >= base_height);
                assert(boundary_width >= base_width);
                lemma_layout_drawable(
                    *tree,
                    0,
                    boundary_height,
                    (boundary_width - base_width) as u32,
                    base_width,
                );
            }
            let rendering_tree = to_rendering_tree(
                tree,
                0,
                boundary_height,
                boundary_width - base_width,
                base_width,
            );
            proof {
                crate::layout::lemma_layout_node_count(
                    *tree,
                    0,
                    boundary_height,
                    (boundary_width - base_width) as u32,
                    base_width,
                );
                crate::walk::lemma_walk_command_count(rendering_tree);
            }
            Ok(render_tree(&rendering_tree))
        },
    }
}

} // verus!
