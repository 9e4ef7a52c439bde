//! A minimal HTTP demonstration service, as a verified library.
//!
//! The library states and proves the request/response behaviour of the
//! service: a health-check endpoint returning a fixed JSON payload, and a
//! greeting endpoint that echoes a path parameter back as JSON. Listening,
//! connection handling and HTTP parsing are left to the hosting framework.

pub mod body;
pub mod route;
pub mod text;
