//! Support layer for HTTP request handlers: a catalog of immutable
//! problem+json error descriptors, a short-circuiting propagation protocol,
//! JSON body conversion, and typed route-parameter extraction.

pub mod combinators;
pub mod conn;
pub mod error;
pub mod json;
pub mod json_body;
pub mod typed_param;
