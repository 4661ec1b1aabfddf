//! Settings read from the environment.

pub mod env;
