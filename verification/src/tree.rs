//! The logical bracket: a finite binary tree of matches, and its depth.

use vstd::prelude::*;

verus! {

/// The two players contesting one match of the bracket.
pub struct TournamentMatch {
    pub player_1: String,
    pub player_2: String,
}

impl Clone for TournamentMatch {
    fn clone(&self) -> (r: Self)
        ensures
            r == *self,
    {
        TournamentMatch { player_1: self.player_1.clone(), player_2: self.player_2.clone() }
    }
}

impl Default for TournamentMatch {
    /// A match with two empty player labels.
    fn default() -> (r: Self)
        ensures
            r.player_1@ == Seq::<char>::empty(),
            r.player_2@ == Seq::<char>::empty(),
    {
        TournamentMatch { player_1: String::new(), player_2: String::new() }
    }
}

/// A single-elimination bracket: either no match at all, or a match fed by
/// two sub-brackets.
pub enum TournamentTree {
    Empty,
    Node { left: Box<TournamentTree>, right: Box<TournamentTree>, tournament_match: TournamentMatch },
}

/// Depth of a bracket: the longest root-to-leaf path, in edges.
/// An empty tree has depth 0; a match has depth one more than its deeper
/// sub-bracket.
pub open spec fn tree_depth(t: TournamentTree) -> nat
    decreases t,
{
    match t {
        TournamentTree::Empty => 0,
        TournamentTree::Node { left, right, .. } => {
            let dl = tree_depth(*left);
            let dr = tree_depth(*right);
            1 + if dl >= dr { dl } else { dr }
        },
    }
}

/// Law: the depth of an empty bracket is 0, and the depth of a match is one
/// more than the maximum of its sub-brackets' depths.
pub proof fn lemma_depth_law(l: TournamentTree, r: TournamentTree, m: TournamentMatch)
    ensures
        tree_depth(TournamentTree::Empty) == 0,
        tree_depth(TournamentTree::Node { left: Box::new(l), right: Box::new(r), tournament_match: m })
            == 1 + if tree_depth(l) >= tree_depth(r) { tree_depth(l) } else { tree_depth(r) },
{
}

/// Number of matches (non-empty nodes) in a bracket.
pub open spec fn match_count(t: TournamentTree) -> nat
    decreases t,
{
    match t {
        TournamentTree::Empty => 0,
        TournamentTree::Node { left, right, .. } => 1 + match_count(*left) + match_count(*right),
    }
}

/// Measures a bracket: 0 for an empty tree, otherwise one more than the
/// deeper sub-bracket.
pub fn depth_of_tree(root: &TournamentTree) -> (depth: u32)
    requires
        tree_depth(*root) <= u32::MAX,
    ensures
        depth == tree_depth(*root),
    decreases *root,
{
    match root {
        TournamentTree::Empty => 0,
        TournamentTree::Node { left, right, tournament_match: _ } => {
            let depth_left = depth_of_tree(&**left);
            let depth_right = depth_of_tree(&**right);
            1 + if depth_left >= depth_right {
                depth_left
            } else {
                depth_right
            }
        },
    }
}

} // verus!
