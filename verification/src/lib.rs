//! Peak: navigate, switch between and delete Git branches from a terminal UI.
//!
//! The verified part of the program: the branch list model, cursor and
//! scrolling arithmetic, filtering, marking, the key-driven state machine and
//! the checkout plan, together with the texts that the screen shows.
pub mod app;
pub mod checkout;
pub mod events;
pub mod filter;
pub mod foreign;
pub mod laws;
pub mod order;
pub mod screen;
pub mod structs;
pub mod utils;
pub mod widgets;
