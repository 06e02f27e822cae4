//! A typed client core for a remote vector-database HTTP service.
//!
//! The verified heart of the crate is the response-validation and
//! error-classification subsystem: every raw HTTP response body passes
//! through a two-stage validator (JSON decode, then structural decode)
//! and every failure is classified into a small closed error taxonomy,
//! with the raw payload preserved for diagnosis.

pub mod error;
pub mod json;
pub mod request;
pub mod response;
pub mod validate;
