//! The logic of a small greeting service: which request gets which response.
//!
//! The service answers `GET /hello?name=<name>` with `{"hello":"<name>"}` and
//! `GET /health` with `{"status":"OK"}`. [`respond`] decides the whole reply,
//! status and body, from the method, the path and the query string of a
//! request; a program around it only has to listen and to send.

pub mod handlers;
pub mod http;
pub mod json;
pub mod laws;
pub mod query;
pub mod text;

pub use handlers::{health, hello, HealthResponse, HelloResponse};
pub use http::{respond, ContentType, Reply, Route};
pub use query::{HelloQuery, QueryError};
