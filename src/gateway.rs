//! What the gateway decides for one call: which upstream call a request
//! becomes, and what the caller receives once that call has completed.
use vstd::prelude::*;

use crate::decode::{decode_params, decodes, forwarded_args, given_args, DecodeError};
use crate::error::{ClaraError, ClientFailure, ErrorObject, GATEWAY_ERROR_CODE};
use crate::json::JsonValue;
use crate::schema::{lemma_wire_name_lookup, ZksApi};

verus! {

/// The one upstream call that an accepted request is forwarded as.
#[derive(Debug, PartialEq)]
pub struct UpstreamCall {
    /// The upstream method of the same wire name.
    pub method: ZksApi,
    /// One argument per declared parameter, in the declared order.
    pub args: Vec<JsonValue>,
}

/// What becomes of an inbound request.
#[derive(Debug, PartialEq)]
pub enum Dispatch {
    /// Make this call upstream.
    Forward(UpstreamCall),
    /// Answer with this error at once; nothing is sent upstream.
    Reject(DecodeError),
}

/// The decision for a request, as a method and its arguments.
pub type Decision = Result<(ZksApi, Seq<JsonValue>), DecodeError>;

/// What the error a caller receives consists of: its code and its message.
pub type ErrorView = (i32, Seq<char>);

impl Dispatch {
    pub open spec fn view_decision(&self) -> Decision {
        match self {
            Dispatch::Forward(c) => Ok((c.method, c.args@)),
            Dispatch::Reject(e) => Err(*e),
        }
    }
}

/// The decision for a request that names `name` with parameters `params`.
pub open spec fn spec_dispatch(name: Seq<char>, params: JsonValue) -> Decision {
    match ZksApi::spec_from_wire_name(name) {
        None => Err(DecodeError::MethodNotFound),
        Some(m) => if decodes(m.spec_params(), params) {
            Ok((m, forwarded_args(m.spec_params().len(), params)))
        } else {
            Err(DecodeError::InvalidParams)
        },
    }
}

/// What the caller receives when the upstream call ended with `outcome`.
pub open spec fn spec_complete<T>(outcome: Result<T, ClaraError>) -> Result<T, ErrorView> {
    match outcome {
        Ok(v) => Ok(v),
        Err(e) => Err((GATEWAY_ERROR_CODE, e.spec_message())),
    }
}

/// A reply as the caller sees it.
pub open spec fn view_reply<T>(r: Result<T, ErrorObject>) -> Result<T, ErrorView> {
    match r {
        Ok(v) => Ok(v),
        Err(o) => Err((o.code, o.message@)),
    }
}

/// Decides what becomes of a request: the method of that wire name with its
/// parameters checked and completed, or the reason it is refused.
pub fn dispatch(name: &str, params: JsonValue) -> (r: Dispatch)
    ensures
        r.view_decision() == spec_dispatch(name@, params),
{
    match ZksApi::from_wire_name(name) {
        None => Dispatch::Reject(DecodeError::MethodNotFound),
        Some(method) => {
            let ps = method.params();
            match decode_params(&ps, params) {
                Ok(args) => Dispatch::Forward(UpstreamCall { method, args }),
                Err(e) => Dispatch::Reject(e),
            }
        },
    }
}

/// Turns the outcome of the upstream call into the reply: a result is passed
/// on as it is, any failure becomes the gateway's error with its message.
pub fn complete<T>(outcome: Result<T, ClaraError>) -> (r: Result<T, ErrorObject>)
    ensures
        view_reply(r) == spec_complete(outcome),
        outcome matches Ok(v) ==> r == Ok::<T, ErrorObject>(v),
{
    match outcome {
        Ok(v) => Ok(v),
        Err(e) => Err(ErrorObject::from(e)),
    }
}

/// One inbound call: the wire name, the parameters, and how the upstream
/// call would end if it were made.
pub type Call<T> = (Seq<char>, JsonValue, Result<T, ClaraError>);

/// The whole answer to one call: refused before anything is sent upstream,
/// or the reply built from the upstream outcome.
pub open spec fn spec_serve<T>(call: Call<T>) -> Result<Result<T, ErrorView>, DecodeError> {
    match spec_dispatch(call.0, call.1) {
        Err(d) => Err(d),
        Ok(_) => Ok(spec_complete(call.2)),
    }
}

/// The answers to calls handled side by side, each at its own position.
pub open spec fn spec_serve_all<T>(calls: Seq<Call<T>>) -> Seq<Result<Result<T, ErrorView>, DecodeError>> {
    Seq::new(calls.len(), |i: int| spec_serve(calls[i]))
}

/// A request with valid parameters for a declared method is forwarded to the
/// method of the same name, with the given arguments in their order and
/// nothing else but `null` for the optional ones left out, and whatever that
/// method returns reaches the caller unchanged.
pub proof fn lemma_valid_call_passes_through<T>(m: ZksApi, params: JsonValue, result: T)
    requires
        decodes(m.spec_params(), params),
    ensures
        spec_dispatch(m.spec_wire_name(), params) == Ok::<(ZksApi, Seq<JsonValue>), DecodeError>(
            (m, forwarded_args(m.spec_params().len(), params)),
        ),
        forwarded_args(m.spec_params().len(), params).len() == m.spec_params().len(),
        forwarded_args(m.spec_params().len(), params).subrange(0, given_args(params).len() as int)
            == given_args(params),
        spec_complete(Ok::<T, ClaraError>(result)) == Ok::<T, ErrorView>(result),
{
    lemma_wire_name_lookup(m);
    let g = given_args(params);
    let f = forwarded_args(m.spec_params().len(), params);
    assert(g.len() <= m.spec_params().len());
    assert(f.subrange(0, g.len() as int) =~= g);
}

/// Every failure of the upstream call, whatever its origin, reaches the
/// caller as the gateway's one error code with the failure's message; an
/// error object from upstream keeps only its message.
pub proof fn lemma_failure_becomes_gateway_error<T>(e: ClaraError)
    ensures
        spec_complete(Err::<T, ClaraError>(e)) == Err::<T, ErrorView>(
            (GATEWAY_ERROR_CODE, e.spec_message()),
        ),
        e matches ClaraError::ClientError(ClientFailure::Call { message, .. })
            ==> e.spec_message() == message@,
        e matches ClaraError::ClientError(ClientFailure::Transport(d)) ==> e.spec_message() == d@,
        e matches ClaraError::Other(d) ==> e.spec_message() == d@,
{
}

/// A request whose name is not declared is refused as an unknown method, so
/// no upstream call is made.
pub proof fn lemma_undeclared_method_rejected(name: Seq<char>, params: JsonValue)
    requires
        forall|m: ZksApi| #[trigger] m.spec_wire_name() != name,
    ensures
        spec_dispatch(name, params) == Err::<(ZksApi, Seq<JsonValue>), DecodeError>(
            DecodeError::MethodNotFound,
        ),
{
    match ZksApi::spec_from_wire_name(name) {
        None => {},
        Some(m) => {
            lemma_wire_name_lookup(m);
            assert(m.spec_wire_name() != name);
        },
    }
}

/// A request for a declared method whose parameters do not fit its
/// declaration is refused as invalid, so no upstream call is made.
pub proof fn lemma_invalid_params_rejected(m: ZksApi, params: JsonValue)
    requires
        !decodes(m.spec_params(), params),
    ensures
        spec_dispatch(m.spec_wire_name(), params) == Err::<(ZksApi, Seq<JsonValue>), DecodeError>(
            DecodeError::InvalidParams,
        ),
{
    lemma_wire_name_lookup(m);
}

/// More parameters than a method declares never fit it.
pub proof fn lemma_too_many_params_rejected(m: ZksApi, items: Vec<JsonValue>)
    requires
        items@.len() > m.spec_params().len(),
    ensures
        spec_dispatch(m.spec_wire_name(), JsonValue::Array(items)) == Err::<
            (ZksApi, Seq<JsonValue>),
            DecodeError,
        >(DecodeError::InvalidParams),
{
    lemma_wire_name_lookup(m);
}

/// Calls handled side by side do not mix: the answer to a call depends on
/// that call alone, whatever other calls run beside it and in whatever order.
pub proof fn lemma_calls_are_independent<T>(
    calls: Seq<Call<T>>,
    others: Seq<Call<T>>,
    i: int,
    j: int,
)
    requires
        0 <= i < calls.len(),
        0 <= j < others.len(),
        calls[i] == others[j],
    ensures
        spec_serve_all(calls)[i] == spec_serve_all(others)[j],
        spec_serve_all(calls)[i] == spec_serve(calls[i]),
{
}

} // verus!
