//! An authenticated HTTP client layer for a single SaaS backend.
//!
//! A [`session::Session`] holds the bearer credential and the tenant
//! context and is the sole factory for authenticated [`http::Request`]s. A
//! [`http::Response`] classifies a received call as parseable or erroneous
//! by its HTTP status against a configurable accepted-status set, and only
//! then decodes the JSON body. Dispatch itself (the blocking network send)
//! is the embedding application's concern, as is the store behind the
//! [`persistence::State`] record.

pub mod error;
pub mod http;
pub(crate) mod json;
pub mod persistence;
pub mod session;
