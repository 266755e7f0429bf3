//! Window-title resolution for an X display server: the decisions of the
//! title protocol, the decoding of property values and the listing format,
//! kept apart from the connection that carries the requests.

pub mod render;
pub mod property;
pub mod resolver;
pub mod listing;
