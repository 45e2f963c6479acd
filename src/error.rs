//! Failures of a forwarded call and the one error shape that callers see.
use vstd::prelude::*;

verus! {

/// The code that every failed call carries, whatever went wrong upstream.
pub const GATEWAY_ERROR_CODE: i32 = -32000;

/// A failure reported by the upstream client.
#[derive(Clone, Debug, PartialEq, Eq)]
pub enum ClientFailure {
    /// The upstream service answered with an error object.
    Call { code: i32, message: String },
    /// The call did not complete (connection, timeout, decoding, ...); the
    /// failure's description.
    Transport(String),
}

/// Any failure of a forwarded call.
#[derive(Clone, Debug, PartialEq, Eq)]
pub enum ClaraError {
    ClientError(ClientFailure),
    Other(String),
}

/// The error returned to the caller: a code and a message, with no data.
#[derive(Clone, Debug, PartialEq, Eq)]
pub struct ErrorObject {
    pub code: i32,
    pub message: String,
}

impl ClaraError {
    /// The text that describes the failure: the upstream message of an error
    /// object, or the description of any other failure.
    pub open spec fn spec_message(&self) -> Seq<char> {
        match self {
            ClaraError::ClientError(ClientFailure::Call { message, .. }) => message@,
            ClaraError::ClientError(ClientFailure::Transport(d)) => d@,
            ClaraError::Other(d) => d@,
        }
    }

    pub fn message(&self) -> (r: String)
        ensures
            r@ == self.spec_message(),
    {
        match self {
            ClaraError::ClientError(ClientFailure::Call { message, .. }) => message.clone(),
            ClaraError::ClientError(ClientFailure::Transport(d)) => d.clone(),
            ClaraError::Other(d) => d.clone(),
        }
    }
}

impl From<ClaraError> for ErrorObject {
    fn from(error: ClaraError) -> (r: ErrorObject)
        ensures
            r.code == GATEWAY_ERROR_CODE,
            r.message@ == error.spec_message(),
    {
        ErrorObject { code: GATEWAY_ERROR_CODE, message: error.message() }
    }
}

// The message is a `String`, which spec code cannot build: what `from`
// returns is stated by its own `ensures` above instead.
impl vstd::std_specs::convert::FromSpecImpl<ClaraError> for ErrorObject {
    open spec fn obeys_from_spec() -> bool {
        false
    }

    open spec fn from_spec(v: ClaraError) -> ErrorObject {
        arbitrary()
    }
}

} // verus!
