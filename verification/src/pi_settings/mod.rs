//! The settings panel: its row table, modes, navigation and event handling.
pub mod keys;
pub mod editor;
pub mod rows;
pub mod state;
pub mod actions;
pub mod transitions;
pub mod input;
pub mod layout;
pub mod laws;
pub mod display;
pub mod geometry;
pub mod dispatch;
