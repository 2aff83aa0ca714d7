//! A typing-speed test: the session state machine, its speed sampling, and
//! the decisions of the loop that drives it.

pub mod config;
pub mod display;
pub mod driver;
pub mod laws;
pub mod model;
pub mod session;
pub mod speed;
pub mod text;
