use clara::decode::{param_conforms, DecodeError};
use clara::error::{ClaraError, ClientFailure, ErrorObject, GATEWAY_ERROR_CODE};
use clara::gateway::{complete, dispatch, Dispatch, UpstreamCall};
use clara::json::{fixed_hex, str_eq, JsonMember, JsonNumber, JsonValue};
use clara::schema::{ParamType, ZksApi};

const ADDRESS: &str = "0x5aea5775959fbc2557cc8789bc1bf90a239d9a91";
const HASH: &str = "0x8a9b2c3d4e5f60718293a4b5c6d7e8f90a1b2c3d4e5f60718293a4b5c6d7e8f9";

fn num(n: u64) -> JsonValue {
    JsonValue::Number(JsonNumber::Unsigned(n))
}

fn text(s: &str) -> JsonValue {
    JsonValue::String(s.to_string())
}

fn token(symbol: &str, decimals: u64) -> JsonValue {
    JsonValue::Object(vec![
        JsonMember { key: "l2Address".to_string(), value: text(ADDRESS) },
        JsonMember { key: "symbol".to_string(), value: text(symbol) },
        JsonMember { key: "decimals".to_string(), value: num(decimals) },
    ])
}

fn tokens() -> Vec<JsonValue> {
    vec![token("ETH", 18), token("USDC", 6), token("WBTC", 8)]
}

fn forwarded(method: ZksApi, args: Vec<JsonValue>) -> Dispatch {
    Dispatch::Forward(UpstreamCall { method, args })
}

fn upstream_error(code: i32, message: &str) -> ClaraError {
    ClaraError::ClientError(ClientFailure::Call { code, message: message.to_string() })
}

#[test]
fn l1_chain_id_passes_result_through() {
    let d = dispatch("zks.L1ChainId", JsonValue::Null);
    assert_eq!(d, forwarded(ZksApi::L1ChainId, vec![]));
    let reply = complete::<u64>(Ok(9));
    assert_eq!(reply, Ok(9));
}

#[test]
fn l1_chain_id_with_empty_array() {
    let d = dispatch("zks.L1ChainId", JsonValue::Array(vec![]));
    assert_eq!(d, forwarded(ZksApi::L1ChainId, vec![]));
}

#[test]
fn token_price_failure_becomes_gateway_error() {
    let d = dispatch("zks.getTokenPrice", JsonValue::Array(vec![text(ADDRESS)]));
    assert_eq!(d, forwarded(ZksApi::GetTokenPrice, vec![text(ADDRESS)]));
    let reply = complete::<String>(Err(upstream_error(-32010, "unknown token")));
    assert_eq!(
        reply,
        Err(ErrorObject { code: GATEWAY_ERROR_CODE, message: "unknown token".to_string() })
    );
    assert_eq!(GATEWAY_ERROR_CODE, -32000);
}

#[test]
fn confirmed_tokens_list_kept_in_order() {
    let d = dispatch("zks.getConfirmedTokens", JsonValue::Array(vec![num(0), num(10)]));
    assert_eq!(d, forwarded(ZksApi::GetConfirmedTokens, vec![num(0), num(10)]));
    let reply = complete(Ok(JsonValue::Array(tokens())));
    assert_eq!(reply, Ok(JsonValue::Array(tokens())));
    match reply {
        Ok(JsonValue::Array(items)) => assert_eq!(items.len(), 3),
        _ => panic!("expected the list of tokens"),
    }
}

#[test]
fn transport_failure_keeps_its_description() {
    let e = ClaraError::ClientError(ClientFailure::Transport("connection refused".to_string()));
    let reply = complete::<u64>(Err(e));
    assert_eq!(
        reply,
        Err(ErrorObject { code: -32000, message: "connection refused".to_string() })
    );
}

#[test]
fn other_failure_keeps_its_description() {
    let reply = complete::<u64>(Err(ClaraError::Other("internal fault".to_string())));
    assert_eq!(reply, Err(ErrorObject { code: -32000, message: "internal fault".to_string() }));
}

#[test]
fn error_object_from_failure() {
    let o = ErrorObject::from(upstream_error(3, "execution reverted"));
    assert_eq!(o.code, -32000);
    assert_eq!(o.message, "execution reverted");
    assert_eq!(upstream_error(3, "x").message(), "x");
}

#[test]
fn undeclared_method_is_rejected() {
    assert_eq!(
        dispatch("zks.getUnknownThing", JsonValue::Null),
        Dispatch::Reject(DecodeError::MethodNotFound)
    );
    assert_eq!(
        dispatch("zks_L1ChainId", JsonValue::Null),
        Dispatch::Reject(DecodeError::MethodNotFound)
    );
    assert_eq!(dispatch("", JsonValue::Null), Dispatch::Reject(DecodeError::MethodNotFound));
    assert_eq!(
        dispatch("eth.L1ChainId", JsonValue::Null),
        Dispatch::Reject(DecodeError::MethodNotFound)
    );
}

#[test]
fn too_many_params_are_rejected() {
    assert_eq!(
        dispatch("zks.L1ChainId", JsonValue::Array(vec![num(1)])),
        Dispatch::Reject(DecodeError::InvalidParams)
    );
    assert_eq!(
        dispatch("zks.getConfirmedTokens", JsonValue::Array(vec![num(0), num(10), num(1)])),
        Dispatch::Reject(DecodeError::InvalidParams)
    );
}

#[test]
fn missing_params_are_rejected() {
    assert_eq!(
        dispatch("zks.getConfirmedTokens", JsonValue::Array(vec![num(0)])),
        Dispatch::Reject(DecodeError::InvalidParams)
    );
    assert_eq!(
        dispatch("zks.getTokenPrice", JsonValue::Null),
        Dispatch::Reject(DecodeError::InvalidParams)
    );
}

#[test]
fn wrong_param_types_are_rejected() {
    // limit is 8 bits wide
    assert_eq!(
        dispatch("zks.getConfirmedTokens", JsonValue::Array(vec![num(0), num(256)])),
        Dispatch::Reject(DecodeError::InvalidParams)
    );
    assert_eq!(
        dispatch("zks.getConfirmedTokens", JsonValue::Array(vec![text("0"), num(10)])),
        Dispatch::Reject(DecodeError::InvalidParams)
    );
    assert_eq!(
        dispatch("zks.getTokenPrice", JsonValue::Array(vec![text("0x1234")])),
        Dispatch::Reject(DecodeError::InvalidParams)
    );
    assert_eq!(
        dispatch("zks.estimateGasL1ToL2", JsonValue::Array(vec![num(1)])),
        Dispatch::Reject(DecodeError::InvalidParams)
    );
    let named = JsonValue::Object(vec![JsonMember { key: "from".to_string(), value: num(0) }]);
    assert_eq!(
        dispatch("zks.getConfirmedTokens", named),
        Dispatch::Reject(DecodeError::InvalidParams)
    );
    assert_eq!(
        dispatch("zks.L1ChainId", JsonValue::Bool(true)),
        Dispatch::Reject(DecodeError::InvalidParams)
    );
}

#[test]
fn largest_values_fit() {
    assert_eq!(
        dispatch("zks.getConfirmedTokens", JsonValue::Array(vec![num(4294967295), num(255)])),
        forwarded(ZksApi::GetConfirmedTokens, vec![num(4294967295), num(255)])
    );
    assert_eq!(
        dispatch("zks.getConfirmedTokens", JsonValue::Array(vec![num(4294967296), num(255)])),
        Dispatch::Reject(DecodeError::InvalidParams)
    );
    assert_eq!(
        dispatch("zks.getProtocolVersion", JsonValue::Array(vec![num(65535)])),
        forwarded(ZksApi::GetProtocolVersion, vec![num(65535)])
    );
    assert_eq!(
        dispatch("zks.getProtocolVersion", JsonValue::Array(vec![num(65536)])),
        Dispatch::Reject(DecodeError::InvalidParams)
    );
}

#[test]
fn optional_params_may_be_left_out() {
    assert_eq!(
        dispatch("zks.getProtocolVersion", JsonValue::Null),
        forwarded(ZksApi::GetProtocolVersion, vec![JsonValue::Null])
    );
    assert_eq!(
        dispatch("zks.getL2ToL1LogProof", JsonValue::Array(vec![text(HASH)])),
        forwarded(ZksApi::GetL2ToL1LogProof, vec![text(HASH), JsonValue::Null])
    );
    assert_eq!(
        dispatch("zks.getL2ToL1LogProof", JsonValue::Array(vec![text(HASH), num(2)])),
        forwarded(ZksApi::GetL2ToL1LogProof, vec![text(HASH), num(2)])
    );
    assert_eq!(
        dispatch(
            "zks.getL2ToL1MsgProof",
            JsonValue::Array(vec![num(7), text(ADDRESS), text(HASH), JsonValue::Null])
        ),
        forwarded(
            ZksApi::GetL2ToL1MsgProof,
            vec![num(7), text(ADDRESS), text(HASH), JsonValue::Null]
        )
    );
}

#[test]
fn proof_takes_a_list_of_hashes() {
    let keys = JsonValue::Array(vec![text(HASH), text(HASH)]);
    let d = dispatch("zks.getProof", JsonValue::Array(vec![text(ADDRESS), keys, num(5)]));
    let expected = JsonValue::Array(vec![text(HASH), text(HASH)]);
    assert_eq!(d, forwarded(ZksApi::GetProof, vec![text(ADDRESS), expected, num(5)]));
    let bad_keys = JsonValue::Array(vec![text(HASH), text(ADDRESS)]);
    assert_eq!(
        dispatch("zks.getProof", JsonValue::Array(vec![text(ADDRESS), bad_keys, num(5)])),
        Dispatch::Reject(DecodeError::InvalidParams)
    );
}

#[test]
fn call_request_is_an_object() {
    let req = JsonValue::Object(vec![JsonMember { key: "to".to_string(), value: text(ADDRESS) }]);
    let d = dispatch("zks.estimateGasL1ToL2", JsonValue::Array(vec![req]));
    let expected =
        JsonValue::Object(vec![JsonMember { key: "to".to_string(), value: text(ADDRESS) }]);
    assert_eq!(d, forwarded(ZksApi::EstimateGasL1ToL2, vec![expected]));
}

#[test]
fn every_method_is_found_by_its_wire_name() {
    let all = [
        ZksApi::EstimateGasL1ToL2,
        ZksApi::GetMainContract,
        ZksApi::GetTestnetPaymaster,
        ZksApi::GetBridgeContracts,
        ZksApi::L1ChainId,
        ZksApi::GetConfirmedTokens,
        ZksApi::GetTokenPrice,
        ZksApi::GetAllAccountBalances,
        ZksApi::GetL2ToL1MsgProof,
        ZksApi::GetL2ToL1LogProof,
        ZksApi::L1BatchNumber,
        ZksApi::GetL1BatchBlockRange,
        ZksApi::GetBlockDetails,
        ZksApi::GetTransactionDetails,
        ZksApi::GetRawBlockTransactions,
        ZksApi::GetL1BatchDetails,
        ZksApi::GetBytecodeByHash,
        ZksApi::GetL1GasPrice,
        ZksApi::GetFeeParams,
        ZksApi::GetProtocolVersion,
        ZksApi::GetProof,
    ];
    for m in all {
        assert_eq!(ZksApi::from_wire_name(m.wire_name()), Some(m));
        assert!(m.wire_name().starts_with("zks."));
    }
    assert_eq!(ZksApi::L1BatchNumber.wire_name(), "zks.L1BatchNumber");
}

#[test]
fn declared_parameters() {
    assert_eq!(ZksApi::GetConfirmedTokens.params(), vec![ParamType::U32, ParamType::U8]);
    assert_eq!(
        ZksApi::GetProof.params(),
        vec![ParamType::Address, ParamType::H256List, ParamType::L1BatchNumber]
    );
    assert!(ZksApi::GetFeeParams.params().is_empty());
    assert!(ParamType::OptionalU16.is_optional());
    assert!(!ParamType::U16.is_optional());
}

#[test]
fn concurrent_calls_do_not_mix() {
    let a = dispatch("zks.getTokenPrice", JsonValue::Array(vec![text(ADDRESS)]));
    let b = dispatch("zks.getConfirmedTokens", JsonValue::Array(vec![num(1), num(2)]));
    let c = dispatch("zks.getTokenPrice", JsonValue::Array(vec![text(HASH)]));
    assert_eq!(a, forwarded(ZksApi::GetTokenPrice, vec![text(ADDRESS)]));
    assert_eq!(b, forwarded(ZksApi::GetConfirmedTokens, vec![num(1), num(2)]));
    assert_eq!(c, Dispatch::Reject(DecodeError::InvalidParams));
    let ra = complete::<u64>(Ok(1));
    let rb = complete::<u64>(Err(upstream_error(-1, "b failed")));
    let ra2 = complete::<u64>(Ok(2));
    assert_eq!(ra, Ok(1));
    assert_eq!(rb, Err(ErrorObject { code: -32000, message: "b failed".to_string() }));
    assert_eq!(ra2, Ok(2));
}

#[test]
fn hex_text_rules() {
    assert!(fixed_hex(ADDRESS, 20));
    assert!(fixed_hex(&ADDRESS[2..], 20));
    assert!(fixed_hex("0xABCDEF0123456789abcdef0123456789ABCDEF01", 20));
    assert!(!fixed_hex(ADDRESS, 32));
    assert!(!fixed_hex("0x5aea5775959fbc2557cc8789bc1bf90a239d9a9g", 20));
    assert!(!fixed_hex("0X5aea5775959fbc2557cc8789bc1bf90a239d9a91", 20));
    assert!(fixed_hex("0x", 0));
    assert!(fixed_hex("", 0));
    assert!(str_eq("abc", "abc"));
    assert!(!str_eq("abc", "abd"));
    assert!(!str_eq("abc", "ab"));
}

#[test]
fn numbers_by_form() {
    assert!(param_conforms(ParamType::Usize, &num(u64::MAX)));
    assert!(!param_conforms(ParamType::U32, &JsonValue::Number(JsonNumber::Negative(-1))));
    assert!(!param_conforms(
        ParamType::U32,
        &JsonValue::Number(JsonNumber::Decimal("1.5".to_string()))
    ));
    assert!(param_conforms(ParamType::OptionalUsize, &JsonValue::Null));
    assert!(!param_conforms(ParamType::MiniblockNumber, &JsonValue::Null));
    assert!(param_conforms(ParamType::L1BatchNumber, &num(12)));
}
