//! Every failure the client surfaces to its caller.

use vstd::prelude::*;

verus! {

/// A local invariant on caller-supplied data that was broken; nothing is
/// sent to the remote agent when one of these is found.
#[derive(Clone, Copy, Debug, PartialEq, Eq, Structural)]
pub enum ValidationError {
    /// A credential offer was asked for with key and value lists of
    /// different lengths.
    UnequalAmountKeyValue,
}

/// The error kinds of the client. None of them is recovered from locally:
/// each bubbles unchanged to the top-level caller.
#[derive(Clone, Debug)]
pub enum AgentError {
    /// The configured base address is not a valid absolute URL. Fatal, and
    /// found once at construction, never per call.
    Configuration { url: String },
    /// Caller-supplied data failed a local invariant; no request was sent.
    Validation { reason: ValidationError },
    /// The remote agent answered with a non-success status. Carries the
    /// status code and the raw response body; the call is not retried.
    Transport { status: u16, body: String },
    /// A success response whose body did not decode into the expected
    /// shape. Carries the raw body; the call is not retried.
    Decode { body: String },
}

} // verus!
