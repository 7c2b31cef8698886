//! Session core of a small blog backend: signed access and refresh tokens,
//! password credentials, the per-request authentication middleware and the
//! decisions that the request handlers take.

pub mod clock;
pub mod cookie;
pub mod credential;
pub mod error;
pub mod handler;
pub mod identity;
pub mod middleware;
pub mod model;
pub mod session;
pub mod token;
