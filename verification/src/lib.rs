//! Request-validation and error-taxonomy core of a user-management REST
//! backend: the shapes of incoming requests, the rules that make a request
//! well-formed, the persisted user record and its public projection, and the
//! mapping from domain failure kinds to wire-level error envelopes.
pub mod config;
pub mod dtos;
pub mod error;
pub mod models;
pub mod text;
pub mod validation;
