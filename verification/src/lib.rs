//! Decision logic of the PIM Tomato menu-bar shell.
pub mod text;
pub mod shell;
pub mod laws;
pub mod payload;
pub mod event_laws;
pub mod text_laws;
