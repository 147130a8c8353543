//! An in-memory message board: messages with a "woop" counter, a router that
//! maps a request's method and path onto the operations, and the responses
//! that the service sends back.

pub mod clock;
pub mod ident;
pub mod laws;
pub mod message;
pub mod response;
pub mod routing;
pub mod service;
pub mod store;
