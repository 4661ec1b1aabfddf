//! A newsletter subscription service: the decisions it makes on each request,
//! the rows it stores, and the address it listens on.

pub mod clock;
pub mod gibberish;
pub mod http;
pub mod routes;
pub mod startup;
pub mod utils;

pub use routes::{health_check, subscribe};
