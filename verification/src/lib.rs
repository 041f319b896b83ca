//! Navigation core of a terminal editor for nested to-do lists: cursor paths,
//! the map of reachable positions, cursor movement and correction, the
//! scrolling window and the input state machine.

pub mod action;
pub mod args;
pub mod ctx;
pub mod cursor;
pub mod cursor_laws;
pub mod fingerprint;
pub mod log;
pub mod model;
pub mod model_laws;
pub mod nav;
pub mod path;
pub mod render;
pub mod store;
pub mod term;
pub mod text;
pub mod tick;
pub mod tree;
pub mod tree_laws;
pub mod win;
