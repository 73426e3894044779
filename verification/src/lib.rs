//! Cafeteria menus for the terminal: where to ask for them, and how to lay them out
//! as styled text.

pub mod api;
pub mod calendar;
pub mod command;
pub mod config;
pub mod printer;
pub mod text;
