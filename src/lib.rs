//! Typed client for a chess server's bot API, with the decisions of its event
//! dispatcher stated as verified state machines.

pub mod client;
pub mod context;
pub mod dispatch;
pub mod error;
pub mod model;
pub mod text;
