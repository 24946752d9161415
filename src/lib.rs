//! An embeddable HTTP client core: request building with authentication and
//! an ordered middleware chain, a retry engine with exponential backoff, and
//! decoding of JSON response bodies.

pub mod text;
pub mod request;
pub mod middleware;
pub mod auth;
pub mod error;
pub mod json;
pub mod retry;
pub mod client;

pub use auth::Auth;
pub use client::RustCore;
pub use error::CoreError;
pub use middleware::Middleware;
pub use request::{Header, Method, Request};
pub use retry::{Attempt, Decision, RetryEngine};
