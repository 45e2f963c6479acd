//! Checking the parameters of a request against a method's declared shape.
use vstd::prelude::*;

use crate::json::{fixed_hex, is_fixed_hex, JsonNumber, JsonValue};
use crate::schema::ParamType;

verus! {

/// Why a request is refused before anything is sent upstream.
#[derive(Clone, Copy, Debug, PartialEq, Eq, Structural)]
pub enum DecodeError {
    /// No declared method has the requested name.
    MethodNotFound,
    /// The parameters do not have the declared count or types.
    InvalidParams,
}

/// `v` is a non-negative integer no larger than `max`.
pub open spec fn is_unsigned_at_most(v: JsonValue, max: int) -> bool {
    match v {
        JsonValue::Number(JsonNumber::Unsigned(n)) => n <= max,
        _ => false,
    }
}

/// `v` is a string that holds `n_bytes` bytes in hexadecimal.
pub open spec fn is_hex_string(v: JsonValue, n_bytes: nat) -> bool {
    match v {
        JsonValue::String(s) => is_fixed_hex(s@, n_bytes),
        _ => false,
    }
}

/// Every item is a string that holds a 32-byte hash in hexadecimal.
pub open spec fn all_hashes(items: Seq<JsonValue>) -> bool {
    forall|i: int| 0 <= i < items.len() ==> #[trigger] is_hex_string(items[i], 32)
}

/// `v` has the shape of a parameter of type `t`.
pub open spec fn conforms(t: ParamType, v: JsonValue) -> bool {
    match t {
        ParamType::U8 => is_unsigned_at_most(v, 0xff),
        ParamType::U16 => is_unsigned_at_most(v, 0xffff),
        ParamType::U32 => is_unsigned_at_most(v, 0xffff_ffff),
        ParamType::Usize => is_unsigned_at_most(v, usize::MAX as int),
        ParamType::Address => is_hex_string(v, 20),
        ParamType::H256 => is_hex_string(v, 32),
        ParamType::H256List => match v {
            JsonValue::Array(items) => all_hashes(items@),
            _ => false,
        },
        ParamType::CallRequest => v is Object,
        ParamType::MiniblockNumber => is_unsigned_at_most(v, 0xffff_ffff),
        ParamType::L1BatchNumber => is_unsigned_at_most(v, 0xffff_ffff),
        ParamType::OptionalU16 => v is Null || is_unsigned_at_most(v, 0xffff),
        ParamType::OptionalUsize => v is Null || is_unsigned_at_most(v, usize::MAX as int),
    }
}

/// The request's parameters fit the declared list `ps`: absent (`null`) when
/// every parameter is optional, or an array no longer than `ps` whose items
/// have the declared types in order, the missing tail being optional.
pub open spec fn decodes(ps: Seq<ParamType>, params: JsonValue) -> bool {
    match params {
        JsonValue::Null => forall|i: int| 0 <= i < ps.len() ==> #[trigger] ps[i].spec_is_optional(),
        JsonValue::Array(items) => {
            &&& items@.len() <= ps.len()
            &&& forall|i: int| 0 <= i < items@.len() ==> #[trigger] conforms(ps[i], items@[i])
            &&& forall|i: int| items@.len() <= i < ps.len() ==> #[trigger] ps[i].spec_is_optional()
        },
        _ => false,
    }
}

/// The parameters as the caller gave them, in order.
pub open spec fn given_args(params: JsonValue) -> Seq<JsonValue> {
    match params {
        JsonValue::Array(items) => items@,
        _ => seq![],
    }
}

/// The `n` arguments sent upstream: those given, in order, then `null` for
/// each optional parameter left out.
pub open spec fn forwarded_args(n: nat, params: JsonValue) -> Seq<JsonValue> {
    let g = given_args(params);
    g + Seq::new((n - g.len()) as nat, |_i: int| JsonValue::Null)
}

fn unsigned_at_most(v: &JsonValue, max: u64) -> (r: bool)
    ensures
        r == is_unsigned_at_most(*v, max as int),
{
    match v {
        JsonValue::Number(JsonNumber::Unsigned(n)) => *n <= max,
        _ => false,
    }
}

fn hex_string(v: &JsonValue, n_bytes: usize) -> (r: bool)
    ensures
        r == is_hex_string(*v, n_bytes as nat),
{
    match v {
        JsonValue::String(s) => fixed_hex(s.as_str(), n_bytes),
        _ => false,
    }
}

/// Whether `v` has the shape of a parameter of type `t`.
pub fn param_conforms(t: ParamType, v: &JsonValue) -> (r: bool)
    ensures
        r == conforms(t, *v),
{
    match t {
        ParamType::U8 => unsigned_at_most(v, 0xff),
        ParamType::U16 => unsigned_at_most(v, 0xffff),
        ParamType::U32 => unsigned_at_most(v, 0xffff_ffff),
        ParamType::Usize => unsigned_at_most(v, usize::MAX as u64),
        ParamType::Address => hex_string(v, 20),
        ParamType::H256 => hex_string(v, 32),
        ParamType::H256List => match v {
            JsonValue::Array(items) => {
                let mut i: usize = 0;
                while i < items.len()
                    invariant
                        t == ParamType::H256List,
                        *v == JsonValue::Array(*items),
                        i <= items@.len(),
                        forall|k: int| 0 <= k < i ==> #[trigger] is_hex_string(items@[k], 32),
                    decreases items@.len() - i,
                {
                    if !hex_string(&items[i], 32) {
                        assert(!is_hex_string(items@[i as int], 32));
                        assert(!all_hashes(items@));
                        return false;
                    }
                    i = i + 1;
                }
                assert(all_hashes(items@));
                true
            },
            _ => false,
        },
        ParamType::CallRequest => matches!(v, JsonValue::Object(_)),
        ParamType::MiniblockNumber => unsigned_at_most(v, 0xffff_ffff),
        ParamType::L1BatchNumber => unsigned_at_most(v, 0xffff_ffff),
        ParamType::OptionalU16 => matches!(v, JsonValue::Null) || unsigned_at_most(v, 0xffff),
        ParamType::OptionalUsize => matches!(v, JsonValue::Null) || unsigned_at_most(
            v,
            usize::MAX as u64,
        ),
    }
}

/// Checks `params` against the declared list `ps` and gives the arguments to
/// send upstream: one per declared parameter, those given kept as they are.
pub fn decode_params(ps: &Vec<ParamType>, params: JsonValue) -> (r: Result<
    Vec<JsonValue>,
    DecodeError,
>)
    ensures
        r is Ok <==> decodes(ps@, params),
        r matches Ok(args) ==> args@ == forwarded_args(ps@.len(), params),
        r matches Err(e) ==> e == DecodeError::InvalidParams,
{
    let n = ps.len();
    let mut args: Vec<JsonValue> = match params {
        JsonValue::Null => Vec::new(),
        JsonValue::Array(items) => {
            if items.len() > n {
                return Err(DecodeError::InvalidParams);
            }
            let mut i: usize = 0;
            while i < items.len()
                invariant
                    params == JsonValue::Array(items),
                    i <= items@.len(),
                    items@.len() <= n,
                    n == ps@.len(),
                    forall|k: int| 0 <= k < i ==> #[trigger] conforms(ps@[k], items@[k]),
                decreases items@.len() - i,
            {
                if !param_conforms(ps[i], &items[i]) {
                    assert(!conforms(ps@[i as int], items@[i as int]));
                    return Err(DecodeError::InvalidParams);
                }
                i = i + 1;
            }
            items
        },
        _ => {
            return Err(DecodeError::InvalidParams);
        },
    };
    let ghost g = args@;
    assert(g == given_args(params));
    let mut j: usize = args.len();
    while j < n
        invariant
            params is Null || params is Array,
            g == given_args(params),
            g.len() <= j <= n,
            n == ps@.len(),
            forall|k: int| g.len() <= k < j ==> #[trigger] ps@[k].spec_is_optional(),
        decreases n - j,
    {
        if !ps[j].is_optional() {
            assert(!ps@[j as int].spec_is_optional());
            return Err(DecodeError::InvalidParams);
        }
        j = j + 1;
    }
    while args.len() < n
        invariant
            g.len() <= args@.len() <= n,
            args@.subrange(0, g.len() as int) == g,
            forall|k: int| g.len() <= k < args@.len() ==> args@[k] == JsonValue::Null,
        decreases n - args@.len(),
    {
        args.push(JsonValue::Null);
    }
    assert(args@ =~= forwarded_args(n as nat, params));
    Ok(args)
}

} // verus!
