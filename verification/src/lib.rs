//! Core logic of a static terminal dashboard: a navigation menu on the left,
//! a content panel on the right, and a one-line text input at the bottom.
//!
//! Everything here is plain state and lookup logic; drawing to the terminal
//! and reading the keyboard live outside this crate.

pub mod menu;
pub mod pages;
pub mod state;
mod text;
