//! Decision logic of a terminal minesweeper client.
pub mod app;
pub mod event;
pub mod game;
pub mod laws;
pub mod layout;
pub mod text;
pub mod view;
