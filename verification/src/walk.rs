//! The layout walker: turning a rendering tree into draw commands.
//!
//! Walking is a pure pre-order traversal (match box first, then the left
//! sub-bracket, then the right) that emits one outlined rectangle and two
//! centered text labels per match. The box has a fixed size; the rectangle
//! computed by the layout only determines its center. The host issues the
//! commands against an actual surface.

use vstd::prelude::*;

use crate::layout::RenderingTree;

verus! {

/// Height of the fixed-size box drawn for one match.
pub const BOX_HEIGHT: u32 = 60;

/// Width of the fixed-size box drawn for one match.
pub const BOX_WIDTH: u32 = 180;

/// Vertical distance between the two player labels of one match.
pub const LABEL_OFFSET: u32 = 10;

/// One command for the external drawing capability: an unfilled rectangle
/// outline given by its top-left corner and dimensions, or a text drawn
/// horizontally centered on `x` with baseline `y`. The coordinate origin is
/// the top-left corner; `y` grows downward.
#[derive(Debug)]
pub enum DrawCommand {
    StrokeRect { x: u32, y: u32, width: u32, height: u32 },
    CenteredText { text: String, x: u32, y: u32 },
}

impl PartialEq for DrawCommand {
    fn eq(&self, other: &Self) -> (r: bool) {
        match (self, other) {
            (
                DrawCommand::StrokeRect { x: x1, y: y1, width: w1, height: h1 },
                DrawCommand::StrokeRect { x: x2, y: y2, width: w2, height: h2 },
            ) => *x1 == *x2 && *y1 == *y2 && *w1 == *w2 && *h1 == *h2,
            (
                DrawCommand::CenteredText { text: t1, x: x1, y: y1 },
                DrawCommand::CenteredText { text: t2, x: x2, y: y2 },
            ) => *t1 == *t2 && *x1 == *x2 && *y1 == *y2,
            _ => false,
        }
    }
}

impl vstd::std_specs::cmp::PartialEqSpecImpl for DrawCommand {
    open spec fn obeys_eq_spec() -> bool {
        true
    }

    open spec fn eq_spec(&self, other: &Self) -> bool {
        match (self, other) {
            (
                DrawCommand::StrokeRect { x: x1, y: y1, width: w1, height: h1 },
                DrawCommand::StrokeRect { x: x2, y: y2, width: w2, height: h2 },
            ) => x1 == x2 && y1 == y2 && w1 == w2 && h1 == h2,
            (
                DrawCommand::CenteredText { text: t1, x: x1, y: y1 },
                DrawCommand::CenteredText { text: t2, x: x2, y: y2 },
            ) => t1@ == t2@ && x1 == x2 && y1 == y2,
            _ => false,
        }
    }
}

impl Eq for DrawCommand {}

/// The match box and its two labels for one laid-out match: the box is
/// `BOX_WIDTH` by `BOX_HEIGHT`, centered in the match's rectangle; the first
/// player's label sits on the center, the second `LABEL_OFFSET` below it.
pub open spec fn node_commands(
    y_top: u32,
    y_bottom: u32,
    x_left: u32,
    width: u32,
    player_1: String,
    player_2: String,
) -> Seq<DrawCommand> {
    let y_center = (y_top + y_bottom) / 2;
    let x_center = x_left + width / 2;
    seq![
        DrawCommand::StrokeRect {
            x: (x_center - BOX_WIDTH / 2) as u32,
            y: (y_center - BOX_HEIGHT / 2) as u32,
            width: BOX_WIDTH,
            height: BOX_HEIGHT,
        },
        DrawCommand::CenteredText { text: player_1, x: x_center as u32, y: y_center as u32 },
        DrawCommand::CenteredText {
            text: player_2,
            x: x_center as u32,
            y: (y_center + LABEL_OFFSET) as u32,
        },
    ]
}

/// The full command sequence for a rendering tree: nothing for an empty
/// tree; for a match, its own box and labels first, then the left
/// sub-bracket's commands, then the right's (pre-order).
pub open spec fn walk_commands(t: RenderingTree) -> Seq<DrawCommand>
    decreases t,
{
    match t {
        RenderingTree::Empty => Seq::empty(),
        RenderingTree::Node { left, right, y_top, y_bottom, x_left, width, tournament_match } => {
            node_commands(
                y_top,
                y_bottom,
                x_left,
                width,
                tournament_match.player_1,
                tournament_match.player_2,
            ) + walk_commands(*left) + walk_commands(*right)
        },
    }
}

/// A rendering tree whose rectangles leave room for the fixed-size match
/// box: every match's center is at least half a box from the canvas's top
/// and left edges, and the center arithmetic stays within `u32`. The layout
/// builder produces such trees whenever the base box is at least as large as
/// the drawn box (see `crate::render::lemma_layout_drawable`).
pub open spec fn drawable(t: RenderingTree) -> bool
    decreases t,
{
    match t {
        RenderingTree::Empty => true,
        RenderingTree::Node { left, right, y_top, y_bottom, x_left, width, .. } => {
            let y_center = (y_top + y_bottom) / 2;
            let x_center = x_left + width / 2;
            &&& y_top + y_bottom <= u32::MAX
            &&& x_center <= u32::MAX
            &&& y_center >= BOX_HEIGHT / 2
            &&& x_center >= BOX_WIDTH / 2
            &&& y_center + LABEL_OFFSET <= u32::MAX
            &&& drawable(*left)
            &&& drawable(*right)
        },
    }
}

/// Law: the walk issues exactly three commands per match — one rectangle
/// outline and two text labels.
pub proof fn lemma_walk_command_count(t: RenderingTree)
    ensures
        walk_commands(t).len() == 3 * crate::layout::node_count(t),
        walk_commands(t).filter(|c: DrawCommand| c is StrokeRect).len() == crate::layout::node_count(t),
        walk_commands(t).filter(|c: DrawCommand| c is CenteredText).len() == 2 * crate::layout::node_count(t),
    decreases t,
{
    broadcast use vstd::seq_lib::group_filter_ensures;

    match t {
        RenderingTree::Empty => {
            assert(walk_commands(t).filter(|c: DrawCommand| c is StrokeRect) =~= Seq::empty());
            assert(walk_commands(t).filter(|c: DrawCommand| c is CenteredText) =~= Seq::empty());
        },
        RenderingTree::Node { left, right, y_top, y_bottom, x_left, width, tournament_match } => {
            lemma_walk_command_count(*left);
            lemma_walk_command_count(*right);
            let own = node_commands(
                y_top,
                y_bottom,
                x_left,
                width,
                tournament_match.player_1,
                tournament_match.player_2,
            );
            lemma_node_commands_filter(own);
        },
    }
}

/// The three commands of one match, filtered by kind: one rectangle, two
/// labels.
proof fn lemma_node_commands_filter(own: Seq<DrawCommand>)
    requires
        own.len() == 3,
        own[0] is StrokeRect,
        own[1] is CenteredText,
        own[2] is CenteredText,
    ensures
        own.filter(|c: DrawCommand| c is StrokeRect).len() == 1,
        own.filter(|c: DrawCommand| c is CenteredText).len() == 2,
{
    reveal_with_fuel(Seq::filter, 4);
    assert(own.drop_last().drop_last().drop_last() =~= Seq::empty());
}

/// Walks a rendering tree and returns the draw commands it owes, in
/// pre-order: each match's fixed-size box outline and two player labels,
/// then the left sub-bracket, then the right.
pub fn render_tree(root: &RenderingTree) -> (cmds: Vec<DrawCommand>)
    requires
        drawable(*root),
    ensures
        cmds@ == walk_commands(*root),
    decreases *root,
{
    match root {
        RenderingTree::Empty => Vec::new(),
        RenderingTree::Node { left, right, y_top, y_bottom, x_left, width, tournament_match } => {
            let y_center = (*y_top + *y_bottom) / 2;
            let x_center = *x_left + *width / 2;

            let mut cmds: Vec<DrawCommand> = Vec::new();
            cmds.push(
                DrawCommand::StrokeRect {
                    x: x_center - BOX_WIDTH / 2,
                    y: y_center - BOX_HEIGHT / 2,
                    width: BOX_WIDTH,
                    height: BOX_HEIGHT,
                },
            );
            cmds.push(
                DrawCommand::CenteredText {
                    text: tournament_match.player_1.clone(),
                    x: x_center,
                    y: y_center,
                },
            );
            cmds.push(
                DrawCommand::CenteredText {
                    text: tournament_match.player_2.clone(),
                    x: x_center,
                    y: y_center + LABEL_OFFSET,
                },
            );

            let mut left_cmds = render_tree(&**left);
            cmds.append(&mut left_cmds);
            let mut right_cmds = render_tree(&**right);
            cmds.append(&mut right_cmds);

            proof {
                assert(cmds@ =~= walk_commands(*root));
            }
            cmds
        },
    }
}

} // verus!
