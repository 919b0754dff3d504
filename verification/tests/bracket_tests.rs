use tournament_bracket::layout::{to_rendering_tree, RenderingTree};
use tournament_bracket::render::{render_bracket_commands, RenderError};
use tournament_bracket::tree::{depth_of_tree, TournamentMatch, TournamentTree};
use tournament_bracket::walk::{render_tree, DrawCommand};

fn pairing(player_1: &str, player_2: &str) -> TournamentMatch {
    TournamentMatch { player_1: player_1.to_string(), player_2: player_2.to_string() }
}

fn node(left: TournamentTree, right: TournamentTree, player_1: &str, player_2: &str) -> TournamentTree {
    TournamentTree::Node {
        left: Box::new(left),
        right: Box::new(right),
        tournament_match: pairing(player_1, player_2),
    }
}

fn leaf(player_1: &str, player_2: &str) -> TournamentTree {
    node(TournamentTree::Empty, TournamentTree::Empty, player_1, player_2)
}

/// A depth-3 bracket: 4 first-round matches, 7 matches in total.
fn depth_three_bracket() -> TournamentTree {
    node(
        node(leaf("Player A", "Player B"), leaf("Player C", "Player D"), "Player A", "Player C"),
        node(leaf("Player E", "Player F"), leaf("Player G", "Player H"), "Player E", "Player G"),
        "Player A",
        "Player E",
    )
}

#[test]
fn depth_of_empty_tree_is_zero() {
    assert_eq!(depth_of_tree(&TournamentTree::Empty), 0);
}

#[test]
fn depth_of_single_match_is_one() {
    assert_eq!(depth_of_tree(&leaf("Player A", "Player B")), 1);
}

#[test]
fn depth_of_lopsided_tree_is_longest_path() {
    let lopsided = node(leaf("Player A", "Player B"), TournamentTree::Empty, "Player A", "Player C");
    assert_eq!(depth_of_tree(&lopsided), 2);
}

#[test]
fn depth_of_full_bracket() {
    assert_eq!(depth_of_tree(&depth_three_bracket()), 3);
}

#[test]
fn boundary_height_doubles_per_level() {
    assert_eq!(tournament_bracket::extent::tree_boundary_height(10, 1), 10);
    assert_eq!(tournament_bracket::extent::tree_boundary_height(10, 2), 20);
    assert_eq!(tournament_bracket::extent::tree_boundary_height(10, 3), 40);
    assert_eq!(tournament_bracket::extent::tree_boundary_height(120, 3), 480);
}

#[test]
fn boundary_width_grows_linearly() {
    assert_eq!(tournament_bracket::extent::tree_boundary_width(200, 3), 600);
    assert_eq!(tournament_bracket::extent::tree_boundary_width(200, 1), 200);
}

#[test]
fn layout_of_empty_tree_is_empty() {
    let laid_out = to_rendering_tree(&TournamentTree::Empty, 0, 480, 400, 200);
    assert!(matches!(laid_out, RenderingTree::Empty));
}

#[test]
fn layout_of_single_match_keeps_its_rectangle() {
    let laid_out = to_rendering_tree(&leaf("Player A", "Player B"), 0, 120, 0, 200);
    match laid_out {
        RenderingTree::Node { left, right, y_top, y_bottom, x_left, width, tournament_match } => {
            assert!(matches!(*left, RenderingTree::Empty));
            assert!(matches!(*right, RenderingTree::Empty));
            assert_eq!(y_top, 0);
            assert_eq!(y_bottom, 120);
            assert_eq!(x_left, 0);
            assert_eq!(width, 200);
            assert_eq!(tournament_match.player_1, "Player A");
            assert_eq!(tournament_match.player_2, "Player B");
        }
        RenderingTree::Empty => panic!("expected one laid-out match"),
    }
}

#[test]
fn children_meet_at_the_vertical_midpoint() {
    let two_rounds =
        node(leaf("Player A", "Player B"), leaf("Player C", "Player D"), "Player A", "Player C");
    let laid_out = to_rendering_tree(&two_rounds, 0, 241, 200, 200);
    match laid_out {
        RenderingTree::Node { left, right, .. } => {
            let (left_bottom, left_x, left_width) = match *left {
                RenderingTree::Node { y_bottom, x_left, width, .. } => (y_bottom, x_left, width),
                RenderingTree::Empty => panic!("expected a left sub-bracket"),
            };
            let (right_top, right_bottom, right_x) = match *right {
                RenderingTree::Node { y_top, y_bottom, x_left, .. } => (y_top, y_bottom, x_left),
                RenderingTree::Empty => panic!("expected a right sub-bracket"),
            };
            // The midpoint truncates: both children share it exactly.
            assert_eq!(left_bottom, 120);
            assert_eq!(right_top, 120);
            assert_eq!(right_bottom, 241);
            // Children sit one column width to the left of the parent.
            assert_eq!(left_x, 0);
            assert_eq!(right_x, 0);
            assert_eq!(left_width, 200);
        }
        RenderingTree::Empty => panic!("expected a laid-out bracket"),
    }
}

#[test]
fn walking_a_single_match_issues_one_box_and_two_labels() {
    let laid_out = to_rendering_tree(&leaf("Player A", "Player B"), 0, 120, 0, 200);
    let cmds = render_tree(&laid_out);
    assert_eq!(cmds.len(), 3);
    // Box of fixed size 180 x 60, centered at (100, 60).
    assert!(cmds[0] == DrawCommand::StrokeRect { x: 10, y: 30, width: 180, height: 60 });
    assert!(
        cmds[1]
            == DrawCommand::CenteredText { text: "Player A".to_string(), x: 100, y: 60 }
    );
    assert!(
        cmds[2]
            == DrawCommand::CenteredText { text: "Player B".to_string(), x: 100, y: 70 }
    );
}

#[test]
fn walking_an_empty_tree_issues_nothing() {
    let cmds = render_tree(&RenderingTree::Empty);
    assert_eq!(cmds.len(), 0);
}

#[test]
fn full_bracket_renders_seven_boxes_in_pre_order() {
    let bracket = depth_three_bracket();
    let cmds = render_bracket_commands(&bracket, 120, 200).expect("valid extents");

    // 7 matches: one rectangle and two labels each.
    assert_eq!(cmds.len(), 21);
    let rectangles = cmds
        .iter()
        .filter(|c| matches!(c, DrawCommand::StrokeRect { .. }))
        .count();
    let labels = cmds
        .iter()
        .filter(|c| matches!(c, DrawCommand::CenteredText { .. }))
        .count();
    assert_eq!(rectangles, 7);
    assert_eq!(labels, 14);

    // boundary_height = 120 * 2^2 = 480, boundary_width = 200 * 3 = 600; the
    // root occupies yTop=0, yBottom=480, xLeft=400, width=200, so its box is
    // centered at (500, 240) and drawn before everything else.
    assert!(cmds[0] == DrawCommand::StrokeRect { x: 410, y: 210, width: 180, height: 60 });
    assert!(
        cmds[1]
            == DrawCommand::CenteredText { text: "Player A".to_string(), x: 500, y: 240 }
    );
    assert!(
        cmds[2]
            == DrawCommand::CenteredText { text: "Player E".to_string(), x: 500, y: 250 }
    );
}

#[test]
fn root_rectangle_matches_the_extents() {
    let bracket = depth_three_bracket();
    let laid_out = to_rendering_tree(&bracket, 0, 480, 400, 200);
    match laid_out {
        RenderingTree::Node { y_top, y_bottom, x_left, width, .. } => {
            assert_eq!(y_top, 0);
            assert_eq!(y_bottom, 480);
            assert_eq!(x_left, 400);
            assert_eq!(width, 200);
        }
        RenderingTree::Empty => panic!("expected a laid-out bracket"),
    }
}

#[test]
fn lopsided_bracket_renders_each_match_once() {
    // Only the right semifinal was played: the deep branch reaches the
    // leftmost column while the left child of the root stays empty.
    let lopsided =
        node(TournamentTree::Empty, leaf("Player C", "Player D"), "Player A", "Player C");
    let cmds = render_bracket_commands(&lopsided, 120, 200).expect("valid extents");
    assert_eq!(cmds.len(), 6);

    // Depth 2: boundary 240 x 400; the root sits at xLeft=200, its played
    // sub-match one column left at xLeft=0, in the lower half.
    assert!(cmds[0] == DrawCommand::StrokeRect { x: 210, y: 90, width: 180, height: 60 });
    assert!(cmds[3] == DrawCommand::StrokeRect { x: 10, y: 150, width: 180, height: 60 });
    assert!(
        cmds[4]
            == DrawCommand::CenteredText { text: "Player C".to_string(), x: 100, y: 180 }
    );
}

#[test]
fn rendering_twice_gives_identical_command_sequences() {
    let bracket = depth_three_bracket();
    let first = render_bracket_commands(&bracket, 120, 200).expect("valid extents");
    let second = render_bracket_commands(&bracket, 120, 200).expect("valid extents");
    assert_eq!(first.len(), second.len());
    assert!(first == second);
}

#[test]
fn empty_bracket_draws_nothing() {
    let cmds = render_bracket_commands(&TournamentTree::Empty, 120, 200).expect("empty is valid");
    assert_eq!(cmds.len(), 0);
}

#[test]
fn zero_base_height_is_rejected() {
    let outcome = render_bracket_commands(&leaf("Player A", "Player B"), 0, 200);
    assert_eq!(outcome.unwrap_err(), RenderError::InvalidExtentParameters);
}

#[test]
fn zero_base_width_is_rejected() {
    let outcome = render_bracket_commands(&leaf("Player A", "Player B"), 120, 0);
    assert_eq!(outcome.unwrap_err(), RenderError::InvalidExtentParameters);
}

#[test]
fn default_match_has_empty_labels() {
    let blank = TournamentMatch::default();
    assert_eq!(blank.player_1, "");
    assert_eq!(blank.player_2, "");
}

#[test]
fn cloned_match_keeps_its_players() {
    let original = pairing("Player A", "Player B");
    let copy = original.clone();
    assert_eq!(copy.player_1, "Player A");
    assert_eq!(copy.player_2, "Player B");
}
