//! Core of a desktop game library manager: the data model, the three page
//! state machines, the controller that routes their actions, and the
//! construction of the environment a game is launched with.

pub mod app;
pub mod launch;
pub mod models;
pub mod pages;
pub mod paths;
pub mod store;
pub mod validation;
