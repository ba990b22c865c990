//! The core of the language-detection demo: a reveal engine that types sample
//! text one character at a time, and the state machine that drives it.
pub mod icon;
pub mod demo;
pub mod model;
