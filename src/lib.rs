//! Typed decoding of a market-data and account-event push feed, with the
//! stream addressing and receive-loop rules around it.
pub mod text;
pub mod json;
pub mod model;
pub mod event;
pub mod stream;
pub mod session;
pub mod userstream;
