//! Layout, dirty tracking and hit-testing for a window manager's status bar
//! and tab strips. Nothing here touches the display: drawing produces a list
//! of operations for the host to replay, and text widths come in measured.
pub mod bar;
pub mod bar_model;
pub mod block;
pub mod color;
pub mod font;
pub mod frame;
pub mod laws;
pub mod strip;
pub mod tab_bar;
pub mod text;
