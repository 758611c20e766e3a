//! The HTTP surface: which request goes to which handler, and what the
//! response to each outcome looks like.
pub mod handler;
pub mod path;
pub mod router;
pub mod service;
