//! The settings catalog and its page layout.
pub mod registry;
pub mod layout;
pub mod catalog;
