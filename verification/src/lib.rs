//! A JSON-schema-validating ingestion library.
//!
//! The library derives a JSON schema for a record shape, validates byte
//! payloads against it with a bounded list of reported violations, builds
//! the replies a web service sends back, and decides the outcome of racing
//! a unit of work against a cancellation signal.

pub mod cancel;
pub mod error;
pub mod jsontext;
pub mod jsonvalue;
pub mod schema;
pub mod webservice;
