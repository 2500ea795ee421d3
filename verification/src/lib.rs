//! Core logic of a twin-pane file manager, verified with Verus.
pub mod text;
pub mod sort;
pub mod names;
pub mod action;
pub mod paths;
pub mod effect;
pub mod panel;
pub mod git_view;
pub mod git_data;
pub mod dialog;
pub mod archive;
pub mod format;
pub mod recent_dirs;
pub mod context_menu;
pub mod keys;
pub mod quick_cd;
pub mod app_state;
pub mod batch;
pub mod render;
pub mod laws;
pub mod listing;
