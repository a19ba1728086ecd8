//! The three page state machines: library, add/edit form and settings form.

pub mod add_game;
pub mod home;
pub mod settings;
