//! The PDF viewers that can be wired up for forward and inverse search,
//! under a shorter path.

pub use crate::texlab_workspace_config::preview_presets::{Preview, PreviewView, Resolution};
