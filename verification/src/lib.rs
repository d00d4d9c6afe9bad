//! A minimal webhook receiver: the decoding of inbound JSON callbacks into a
//! tagged event type, the echo and health endpoint logic, and the JSON bodies
//! each endpoint answers with. The HTTP transport around it lives elsewhere;
//! this crate takes a request body as text and hands back a status code and a
//! response body.

pub mod api;
pub mod json;
pub mod respond;
pub mod text;
