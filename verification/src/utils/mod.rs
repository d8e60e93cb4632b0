//! Shared helpers: character-level string routines, URL utilities, and
//! debug-option constructors.

pub mod debug;
pub mod http;
pub mod strings;
