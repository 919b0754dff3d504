//! Layout and rendering of single-elimination tournament brackets.
//!
//! A logical bracket (`TournamentTree`) is measured (`depth_of_tree`,
//! `tree_boundary_height`, `tree_boundary_width`), partitioned into
//! per-match rectangles (`to_rendering_tree`), and finally walked into a
//! deterministic sequence of drawing commands (`render_tree`,
//! `render_bracket_commands`) that a host binds to an actual surface.

pub mod extent;
pub mod layout;
pub mod render;
pub mod tree;
pub mod walk;
