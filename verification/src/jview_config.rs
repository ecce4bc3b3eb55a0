//! What the panes share.

pub mod settings;
