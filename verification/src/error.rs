use vstd::prelude::*;

verus! {

/// Errors raised while generating schemas, validating payloads, or running
/// the service. Each variant keeps the diagnostic it was built from.
#[derive(Debug)]
pub enum MyError {
    /// A general error with a message.
    Message(String),
    /// The running task was cancelled before its work completed.
    Cancelled,
    /// A document could not be parsed as JSON, or parsed JSON could not be
    /// converted into typed records; carries the parser's diagnostic.
    Serde(String),
    /// A stream or file operation failed; carries the diagnostic.
    Io(String),
    /// The payload parsed as JSON but broke the schema; carries at most the
    /// configured number of violation descriptions, in discovery order.
    JsonValidation(Vec<String>),
    /// The schema document itself was rejected by the schema compiler.
    ValidationError(String),
}

} // verus!
