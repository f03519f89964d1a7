//! Client library for a remote ledger service that stores facts as
//! verb/key/value records under a named context.
//!
//! The library builds each request body itself, classifies the generic
//! `{ data, errors }` response envelope, and surfaces every failure through
//! one error taxonomy. Network transport and raw JSON parsing are delegated
//! to outside crates behind narrow trusted boundaries; everything else is
//! verified.

pub mod cli;
pub mod client;
pub mod decode;
pub mod envelope;
pub mod error;
pub mod json;
pub mod laws;
pub mod model;
pub mod request;
pub mod text;
