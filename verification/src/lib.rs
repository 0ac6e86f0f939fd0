//! The request lifecycle of a keyboard-driven HTTP client: a collection of
//! saved requests, the interaction state that gates their mutation, and the
//! mapping of a transport outcome onto the request that was sent.

pub mod app;
pub mod collection;
pub mod editor;
pub mod method;
pub mod request;
pub mod text;
pub mod transport;
