//! Map input rules: what a click, tap or context menu on a map tile may do.

pub mod map_click;
pub mod placement;
pub mod keys;
pub mod tile_actions;
pub mod touch;
