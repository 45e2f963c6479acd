//! The fixed set of methods that the gateway exposes, with the shape of their
//! parameters.
use vstd::prelude::*;

use crate::json::str_eq;

verus! {

/// The shape that one positional parameter must have.
#[derive(Clone, Copy, Debug, PartialEq, Eq, Structural)]
pub enum ParamType {
    /// An integer from 0 to 255.
    U8,
    /// An integer from 0 to 65535.
    U16,
    /// An integer from 0 to 4294967295.
    U32,
    /// A non-negative integer that fits in a `usize`.
    Usize,
    /// A 20-byte address in hexadecimal.
    Address,
    /// A 32-byte hash in hexadecimal.
    H256,
    /// An array of 32-byte hashes.
    H256List,
    /// A call request: an object whose fields the upstream service reads.
    CallRequest,
    /// A block number: an integer that fits in 32 bits.
    MiniblockNumber,
    /// A batch number: an integer that fits in 32 bits.
    L1BatchNumber,
    /// `null`, or what `U16` accepts.
    OptionalU16,
    /// `null`, or what `Usize` accepts.
    OptionalUsize,
}

impl ParamType {
    /// A parameter that may be `null` or left out at the end of the list.
    pub open spec fn spec_is_optional(self) -> bool {
        self is OptionalU16 || self is OptionalUsize
    }

    pub fn is_optional(&self) -> (r: bool)
        ensures
            r == self.spec_is_optional(),
    {
        matches!(self, ParamType::OptionalU16 | ParamType::OptionalUsize)
    }
}

/// What a method's result holds. The gateway passes a result on unchanged;
/// this is what the upstream method of the same name returns.
#[derive(Clone, Copy, Debug, PartialEq, Eq, Structural)]
pub enum ResultType {
    /// An unsigned 256-bit integer.
    U256,
    /// An unsigned 64-bit integer.
    U64,
    /// An address.
    Address,
    /// An address, or `null`.
    OptionalAddress,
    /// The addresses of the bridge contracts.
    BridgeAddresses,
    /// A list of token descriptors.
    TokenList,
    /// A decimal number at full precision.
    Decimal,
    /// A map from token address to balance.
    Balances,
    /// A proof of an L2-to-L1 log, or `null`.
    OptionalLogProof,
    /// The first and last block of a batch, or `null`.
    OptionalBlockRange,
    /// The details of a block, or `null`.
    OptionalBlockDetails,
    /// The details of a transaction, or `null`.
    OptionalTransactionDetails,
    /// A list of raw transactions.
    TransactionList,
    /// The details of a batch, or `null`.
    OptionalBatchDetails,
    /// A byte sequence, or `null`.
    OptionalBytecode,
    /// The fee parameters.
    FeeParams,
    /// A protocol version descriptor, or `null`.
    OptionalProtocolVersion,
    /// A storage proof.
    StorageProof,
}

/// The methods of the gateway's API, all under the `zks` namespace.
///
/// Each one is forwarded to the upstream method of the same name, with the
/// same parameters.
#[derive(Clone, Copy, Debug, PartialEq, Eq, Structural)]
pub enum ZksApi {
    EstimateGasL1ToL2,
    GetMainContract,
    GetTestnetPaymaster,
    GetBridgeContracts,
    L1ChainId,
    GetConfirmedTokens,
    GetTokenPrice,
    GetAllAccountBalances,
    GetL2ToL1MsgProof,
    GetL2ToL1LogProof,
    L1BatchNumber,
    GetL1BatchBlockRange,
    GetBlockDetails,
    GetTransactionDetails,
    GetRawBlockTransactions,
    GetL1BatchDetails,
    GetBytecodeByHash,
    GetL1GasPrice,
    GetFeeParams,
    GetProtocolVersion,
    GetProof,
}

impl ZksApi {
    /// The name under which the method is called: the namespace, a dot, and
    /// the method's own name.
    pub open spec fn spec_wire_name(self) -> Seq<char> {
        match self {
            ZksApi::EstimateGasL1ToL2 => "zks.estimateGasL1ToL2"@,
            ZksApi::GetMainContract => "zks.getMainContract"@,
            ZksApi::GetTestnetPaymaster => "zks.getTestnetPaymaster"@,
            ZksApi::GetBridgeContracts => "zks.getBridgeContracts"@,
            ZksApi::L1ChainId => "zks.L1ChainId"@,
            ZksApi::GetConfirmedTokens => "zks.getConfirmedTokens"@,
            ZksApi::GetTokenPrice => "zks.getTokenPrice"@,
            ZksApi::GetAllAccountBalances => "zks.getAllAccountBalances"@,
            ZksApi::GetL2ToL1MsgProof => "zks.getL2ToL1MsgProof"@,
            ZksApi::GetL2ToL1LogProof => "zks.getL2ToL1LogProof"@,
            ZksApi::L1BatchNumber => "zks.L1BatchNumber"@,
            ZksApi::GetL1BatchBlockRange => "zks.getL1BatchBlockRange"@,
            ZksApi::GetBlockDetails => "zks.getBlockDetails"@,
            ZksApi::GetTransactionDetails => "zks.getTransactionDetails"@,
            ZksApi::GetRawBlockTransactions => "zks.getRawBlockTransactions"@,
            ZksApi::GetL1BatchDetails => "zks.getL1BatchDetails"@,
            ZksApi::GetBytecodeByHash => "zks.getBytecodeByHash"@,
            ZksApi::GetL1GasPrice => "zks.getL1GasPrice"@,
            ZksApi::GetFeeParams => "zks.getFeeParams"@,
            ZksApi::GetProtocolVersion => "zks.getProtocolVersion"@,
            ZksApi::GetProof => "zks.getProof"@,
        }
    }

    pub fn wire_name(&self) -> (r: &'static str)
        ensures
            r@ == self.spec_wire_name(),
    {
        match self {
            ZksApi::EstimateGasL1ToL2 => "zks.estimateGasL1ToL2",
            ZksApi::GetMainContract => "zks.getMainContract",
            ZksApi::GetTestnetPaymaster => "zks.getTestnetPaymaster",
            ZksApi::GetBridgeContracts => "zks.getBridgeContracts",
            ZksApi::L1ChainId => "zks.L1ChainId",
            ZksApi::GetConfirmedTokens => "zks.getConfirmedTokens",
            ZksApi::GetTokenPrice => "zks.getTokenPrice",
            ZksApi::GetAllAccountBalances => "zks.getAllAccountBalances",
            ZksApi::GetL2ToL1MsgProof => "zks.getL2ToL1MsgProof",
            ZksApi::GetL2ToL1LogProof => "zks.getL2ToL1LogProof",
            ZksApi::L1BatchNumber => "zks.L1BatchNumber",
            ZksApi::GetL1BatchBlockRange => "zks.getL1BatchBlockRange",
            ZksApi::GetBlockDetails => "zks.getBlockDetails",
            ZksApi::GetTransactionDetails => "zks.getTransactionDetails",
            ZksApi::GetRawBlockTransactions => "zks.getRawBlockTransactions",
            ZksApi::GetL1BatchDetails => "zks.getL1BatchDetails",
            ZksApi::GetBytecodeByHash => "zks.getBytecodeByHash",
            ZksApi::GetL1GasPrice => "zks.getL1GasPrice",
            ZksApi::GetFeeParams => "zks.getFeeParams",
            ZksApi::GetProtocolVersion => "zks.getProtocolVersion",
            ZksApi::GetProof => "zks.getProof",
        }
    }

    /// The declared parameters, in order.
    pub open spec fn spec_params(self) -> Seq<ParamType> {
        match self {
            ZksApi::EstimateGasL1ToL2 => seq![ParamType::CallRequest],
            ZksApi::GetMainContract => seq![],
            ZksApi::GetTestnetPaymaster => seq![],
            ZksApi::GetBridgeContracts => seq![],
            ZksApi::L1ChainId => seq![],
            ZksApi::GetConfirmedTokens => seq![ParamType::U32, ParamType::U8],
            ZksApi::GetTokenPrice => seq![ParamType::Address],
            ZksApi::GetAllAccountBalances => seq![ParamType::Address],
            ZksApi::GetL2ToL1MsgProof => seq![ParamType::MiniblockNumber, ParamType::Address, ParamType::H256, ParamType::OptionalUsize],
            ZksApi::GetL2ToL1LogProof => seq![ParamType::H256, ParamType::OptionalUsize],
            ZksApi::L1BatchNumber => seq![],
            ZksApi::GetL1BatchBlockRange => seq![ParamType::L1BatchNumber],
            ZksApi::GetBlockDetails => seq![ParamType::MiniblockNumber],
            ZksApi::GetTransactionDetails => seq![ParamType::H256],
            ZksApi::GetRawBlockTransactions => seq![ParamType::MiniblockNumber],
            ZksApi::GetL1BatchDetails => seq![ParamType::L1BatchNumber],
            ZksApi::GetBytecodeByHash => seq![ParamType::H256],
            ZksApi::GetL1GasPrice => seq![],
            ZksApi::GetFeeParams => seq![],
            ZksApi::GetProtocolVersion => seq![ParamType::OptionalU16],
            ZksApi::GetProof => seq![ParamType::Address, ParamType::H256List, ParamType::L1BatchNumber],
        }
    }

    pub fn params(&self) -> (r: Vec<ParamType>)
        ensures
            r@ == self.spec_params(),
    {
        let r = match self {
            ZksApi::EstimateGasL1ToL2 => vec![ParamType::CallRequest],
            ZksApi::GetMainContract => vec![],
            ZksApi::GetTestnetPaymaster => vec![],
            ZksApi::GetBridgeContracts => vec![],
            ZksApi::L1ChainId => vec![],
            ZksApi::GetConfirmedTokens => vec![ParamType::U32, ParamType::U8],
            ZksApi::GetTokenPrice => vec![ParamType::Address],
            ZksApi::GetAllAccountBalances => vec![ParamType::Address],
            ZksApi::GetL2ToL1MsgProof => vec![ParamType::MiniblockNumber, ParamType::Address, ParamType::H256, ParamType::OptionalUsize],
            ZksApi::GetL2ToL1LogProof => vec![ParamType::H256, ParamType::OptionalUsize],
            ZksApi::L1BatchNumber => vec![],
            ZksApi::GetL1BatchBlockRange => vec![ParamType::L1BatchNumber],
            ZksApi::GetBlockDetails => vec![ParamType::MiniblockNumber],
            ZksApi::GetTransactionDetails => vec![ParamType::H256],
            ZksApi::GetRawBlockTransactions => vec![ParamType::MiniblockNumber],
            ZksApi::GetL1BatchDetails => vec![ParamType::L1BatchNumber],
            ZksApi::GetBytecodeByHash => vec![ParamType::H256],
            ZksApi::GetL1GasPrice => vec![],
            ZksApi::GetFeeParams => vec![],
            ZksApi::GetProtocolVersion => vec![ParamType::OptionalU16],
            ZksApi::GetProof => vec![ParamType::Address, ParamType::H256List, ParamType::L1BatchNumber],
        };
        assert(r@ =~= self.spec_params());
        r
    }

    /// What the method's result holds.
    pub open spec fn spec_result_type(self) -> ResultType {
        match self {
            ZksApi::EstimateGasL1ToL2 => ResultType::U256,
            ZksApi::GetMainContract => ResultType::Address,
            ZksApi::GetTestnetPaymaster => ResultType::OptionalAddress,
            ZksApi::GetBridgeContracts => ResultType::BridgeAddresses,
            ZksApi::L1ChainId => ResultType::U64,
            ZksApi::GetConfirmedTokens => ResultType::TokenList,
            ZksApi::GetTokenPrice => ResultType::Decimal,
            ZksApi::GetAllAccountBalances => ResultType::Balances,
            ZksApi::GetL2ToL1MsgProof => ResultType::OptionalLogProof,
            ZksApi::GetL2ToL1LogProof => ResultType::OptionalLogProof,
            ZksApi::L1BatchNumber => ResultType::U64,
            ZksApi::GetL1BatchBlockRange => ResultType::OptionalBlockRange,
            ZksApi::GetBlockDetails => ResultType::OptionalBlockDetails,
            ZksApi::GetTransactionDetails => ResultType::OptionalTransactionDetails,
            ZksApi::GetRawBlockTransactions => ResultType::TransactionList,
            ZksApi::GetL1BatchDetails => ResultType::OptionalBatchDetails,
            ZksApi::GetBytecodeByHash => ResultType::OptionalBytecode,
            ZksApi::GetL1GasPrice => ResultType::U64,
            ZksApi::GetFeeParams => ResultType::FeeParams,
            ZksApi::GetProtocolVersion => ResultType::OptionalProtocolVersion,
            ZksApi::GetProof => ResultType::StorageProof,
        }
    }

    pub fn result_type(&self) -> (r: ResultType)
        ensures
            r == self.spec_result_type(),
    {
        match self {
            ZksApi::EstimateGasL1ToL2 => ResultType::U256,
            ZksApi::GetMainContract => ResultType::Address,
            ZksApi::GetTestnetPaymaster => ResultType::OptionalAddress,
            ZksApi::GetBridgeContracts => ResultType::BridgeAddresses,
            ZksApi::L1ChainId => ResultType::U64,
            ZksApi::GetConfirmedTokens => ResultType::TokenList,
            ZksApi::GetTokenPrice => ResultType::Decimal,
            ZksApi::GetAllAccountBalances => ResultType::Balances,
            ZksApi::GetL2ToL1MsgProof => ResultType::OptionalLogProof,
            ZksApi::GetL2ToL1LogProof => ResultType::OptionalLogProof,
            ZksApi::L1BatchNumber => ResultType::U64,
            ZksApi::GetL1BatchBlockRange => ResultType::OptionalBlockRange,
            ZksApi::GetBlockDetails => ResultType::OptionalBlockDetails,
            ZksApi::GetTransactionDetails => ResultType::OptionalTransactionDetails,
            ZksApi::GetRawBlockTransactions => ResultType::TransactionList,
            ZksApi::GetL1BatchDetails => ResultType::OptionalBatchDetails,
            ZksApi::GetBytecodeByHash => ResultType::OptionalBytecode,
            ZksApi::GetL1GasPrice => ResultType::U64,
            ZksApi::GetFeeParams => ResultType::FeeParams,
            ZksApi::GetProtocolVersion => ResultType::OptionalProtocolVersion,
            ZksApi::GetProof => ResultType::StorageProof,
        }
    }

    /// Every declared method, each once.
    pub fn all() -> (r: Vec<ZksApi>)
        ensures
            forall|m: ZksApi| r@.contains(m),
            r@.no_duplicates(),
    {
        let r = vec![
            ZksApi::EstimateGasL1ToL2,
            ZksApi::GetMainContract,
            ZksApi::GetTestnetPaymaster,
            ZksApi::GetBridgeContracts,
            ZksApi::L1ChainId,
            ZksApi::GetConfirmedTokens,
            ZksApi::GetTokenPrice,
            ZksApi::GetAllAccountBalances,
            ZksApi::GetL2ToL1MsgProof,
            ZksApi::GetL2ToL1LogProof,
            ZksApi::L1BatchNumber,
            ZksApi::GetL1BatchBlockRange,
            ZksApi::GetBlockDetails,
            ZksApi::GetTransactionDetails,
            ZksApi::GetRawBlockTransactions,
            ZksApi::GetL1BatchDetails,
            ZksApi::GetBytecodeByHash,
            ZksApi::GetL1GasPrice,
            ZksApi::GetFeeParams,
            ZksApi::GetProtocolVersion,
            ZksApi::GetProof,
        ];
        proof {
            assert forall|m: ZksApi| r@.contains(m) by {
                match m {
                    ZksApi::EstimateGasL1ToL2 => assert(r@[0] == m),
                    ZksApi::GetMainContract => assert(r@[1] == m),
                    ZksApi::GetTestnetPaymaster => assert(r@[2] == m),
                    ZksApi::GetBridgeContracts => assert(r@[3] == m),
                    ZksApi::L1ChainId => assert(r@[4] == m),
                    ZksApi::GetConfirmedTokens => assert(r@[5] == m),
                    ZksApi::GetTokenPrice => assert(r@[6] == m),
                    ZksApi::GetAllAccountBalances => assert(r@[7] == m),
                    ZksApi::GetL2ToL1MsgProof => assert(r@[8] == m),
                    ZksApi::GetL2ToL1LogProof => assert(r@[9] == m),
                    ZksApi::L1BatchNumber => assert(r@[10] == m),
                    ZksApi::GetL1BatchBlockRange => assert(r@[11] == m),
                    ZksApi::GetBlockDetails => assert(r@[12] == m),
                    ZksApi::GetTransactionDetails => assert(r@[13] == m),
                    ZksApi::GetRawBlockTransactions => assert(r@[14] == m),
                    ZksApi::GetL1BatchDetails => assert(r@[15] == m),
                    ZksApi::GetBytecodeByHash => assert(r@[16] == m),
                    ZksApi::GetL1GasPrice => assert(r@[17] == m),
                    ZksApi::GetFeeParams => assert(r@[18] == m),
                    ZksApi::GetProtocolVersion => assert(r@[19] == m),
                    ZksApi::GetProof => assert(r@[20] == m),
                }
            }
        }
        r
    }

    /// The method called by the wire name `name`, if one is declared.
    pub open spec fn spec_from_wire_name(name: Seq<char>) -> Option<ZksApi> {
        if name == "zks.estimateGasL1ToL2"@ {
            Some(ZksApi::EstimateGasL1ToL2)
        } else if name == "zks.getMainContract"@ {
            Some(ZksApi::GetMainContract)
        } else if name == "zks.getTestnetPaymaster"@ {
            Some(ZksApi::GetTestnetPaymaster)
        } else if name == "zks.getBridgeContracts"@ {
            Some(ZksApi::GetBridgeContracts)
        } else if name == "zks.L1ChainId"@ {
            Some(ZksApi::L1ChainId)
        } else if name == "zks.getConfirmedTokens"@ {
            Some(ZksApi::GetConfirmedTokens)
        } else if name == "zks.getTokenPrice"@ {
            Some(ZksApi::GetTokenPrice)
        } else if name == "zks.getAllAccountBalances"@ {
            Some(ZksApi::GetAllAccountBalances)
        } else if name == "zks.getL2ToL1MsgProof"@ {
            Some(ZksApi::GetL2ToL1MsgProof)
        } else if name == "zks.getL2ToL1LogProof"@ {
            Some(ZksApi::GetL2ToL1LogProof)
        } else if name == "zks.L1BatchNumber"@ {
            Some(ZksApi::L1BatchNumber)
        } else if name == "zks.getL1BatchBlockRange"@ {
            Some(ZksApi::GetL1BatchBlockRange)
        } else if name == "zks.getBlockDetails"@ {
            Some(ZksApi::GetBlockDetails)
        } else if name == "zks.getTransactionDetails"@ {
            Some(ZksApi::GetTransactionDetails)
        } else if name == "zks.getRawBlockTransactions"@ {
            Some(ZksApi::GetRawBlockTransactions)
        } else if name == "zks.getL1BatchDetails"@ {
            Some(ZksApi::GetL1BatchDetails)
        } else if name == "zks.getBytecodeByHash"@ {
            Some(ZksApi::GetBytecodeByHash)
        } else if name == "zks.getL1GasPrice"@ {
            Some(ZksApi::GetL1GasPrice)
        } else if name == "zks.getFeeParams"@ {
            Some(ZksApi::GetFeeParams)
        } else if name == "zks.getProtocolVersion"@ {
            Some(ZksApi::GetProtocolVersion)
        } else if name == "zks.getProof"@ {
            Some(ZksApi::GetProof)
        } else {
            None
        }
    }

    /// Looks a method up by its wire name.
    pub fn from_wire_name(name: &str) -> (r: Option<ZksApi>)
        ensures
            r == Self::spec_from_wire_name(name@),
    {
        if str_eq(name, "zks.estimateGasL1ToL2") {
            Some(ZksApi::EstimateGasL1ToL2)
        } else if str_eq(name, "zks.getMainContract") {
            Some(ZksApi::GetMainContract)
        } else if str_eq(name, "zks.getTestnetPaymaster") {
            Some(ZksApi::GetTestnetPaymaster)
        } else if str_eq(name, "zks.getBridgeContracts") {
            Some(ZksApi::GetBridgeContracts)
        } else if str_eq(name, "zks.L1ChainId") {
            Some(ZksApi::L1ChainId)
        } else if str_eq(name, "zks.getConfirmedTokens") {
            Some(ZksApi::GetConfirmedTokens)
        } else if str_eq(name, "zks.getTokenPrice") {
            Some(ZksApi::GetTokenPrice)
        } else if str_eq(name, "zks.getAllAccountBalances") {
            Some(ZksApi::GetAllAccountBalances)
        } else if str_eq(name, "zks.getL2ToL1MsgProof") {
            Some(ZksApi::GetL2ToL1MsgProof)
        } else if str_eq(name, "zks.getL2ToL1LogProof") {
            Some(ZksApi::GetL2ToL1LogProof)
        } else if str_eq(name, "zks.L1BatchNumber") {
            Some(ZksApi::L1BatchNumber)
        } else if str_eq(name, "zks.getL1BatchBlockRange") {
            Some(ZksApi::GetL1BatchBlockRange)
        } else if str_eq(name, "zks.getBlockDetails") {
            Some(ZksApi::GetBlockDetails)
        } else if str_eq(name, "zks.getTransactionDetails") {
            Some(ZksApi::GetTransactionDetails)
        } else if str_eq(name, "zks.getRawBlockTransactions") {
            Some(ZksApi::GetRawBlockTransactions)
        } else if str_eq(name, "zks.getL1BatchDetails") {
            Some(ZksApi::GetL1BatchDetails)
        } else if str_eq(name, "zks.getBytecodeByHash") {
            Some(ZksApi::GetBytecodeByHash)
        } else if str_eq(name, "zks.getL1GasPrice") {
            Some(ZksApi::GetL1GasPrice)
        } else if str_eq(name, "zks.getFeeParams") {
            Some(ZksApi::GetFeeParams)
        } else if str_eq(name, "zks.getProtocolVersion") {
            Some(ZksApi::GetProtocolVersion)
        } else if str_eq(name, "zks.getProof") {
            Some(ZksApi::GetProof)
        } else {
            None
        }
    }
}

/// Each declared method is found again by its own wire name: no two methods
/// share a name, so the lookup is a direct one.
#[verifier::spinoff_prover]
pub proof fn lemma_wire_name_lookup(m: ZksApi)
    ensures
        ZksApi::spec_from_wire_name(m.spec_wire_name()) == Some(m),
{
    match m {
        ZksApi::EstimateGasL1ToL2 => {
            reveal_strlit("zks.estimateGasL1ToL2");
        },
        ZksApi::GetMainContract => {
            reveal_strlit("zks.estimateGasL1ToL2");
            reveal_strlit("zks.getMainContract");
            assert("zks.estimateGasL1ToL2"@[4] != "zks.getMainContract"@[4]);
        },
        ZksApi::GetTestnetPaymaster => {
            reveal_strlit("zks.estimateGasL1ToL2");
            reveal_strlit("zks.getMainContract");
            reveal_strlit("zks.getTestnetPaymaster");
            assert("zks.estimateGasL1ToL2"@[4] != "zks.getTestnetPaymaster"@[4]);
            assert("zks.getMainContract"@[7] != "zks.getTestnetPaymaster"@[7]);
        },
        ZksApi::GetBridgeContracts => {
            reveal_strlit("zks.estimateGasL1ToL2");
            reveal_strlit("zks.getMainContract");
            reveal_strlit("zks.getTestnetPaymaster");
            reveal_strlit("zks.getBridgeContracts");
            assert("zks.estimateGasL1ToL2"@[4] != "zks.getBridgeContracts"@[4]);
            assert("zks.getMainContract"@[7] != "zks.getBridgeContracts"@[7]);
            assert("zks.getTestnetPaymaster"@[7] != "zks.getBridgeContracts"@[7]);
        },
        ZksApi::L1ChainId => {
            reveal_strlit("zks.estimateGasL1ToL2");
            reveal_strlit("zks.getMainContract");
            reveal_strlit("zks.getTestnetPaymaster");
            reveal_strlit("zks.getBridgeContracts");
            reveal_strlit("zks.L1ChainId");
            assert("zks.estimateGasL1ToL2"@[4] != "zks.L1ChainId"@[4]);
            assert("zks.getMainContract"@[4] != "zks.L1ChainId"@[4]);
            assert("zks.getTestnetPaymaster"@[4] != "zks.L1ChainId"@[4]);
            assert("zks.getBridgeContracts"@[4] != "zks.L1ChainId"@[4]);
        },
        ZksApi::GetConfirmedTokens => {
            reveal_strlit("zks.estimateGasL1ToL2");
            reveal_strlit("zks.getMainContract");
            reveal_strlit("zks.getTestnetPaymaster");
            reveal_strlit("zks.getBridgeContracts");
            reveal_strlit("zks.L1ChainId");
            reveal_strlit("zks.getConfirmedTokens");
            assert("zks.estimateGasL1ToL2"@[4] != "zks.getConfirmedTokens"@[4]);
            assert("zks.getMainContract"@[7] != "zks.getConfirmedTokens"@[7]);
            assert("zks.getTestnetPaymaster"@[7] != "zks.getConfirmedTokens"@[7]);
            assert("zks.getBridgeContracts"@[7] != "zks.getConfirmedTokens"@[7]);
            assert("zks.L1ChainId"@[4] != "zks.getConfirmedTokens"@[4]);
        },
        ZksApi::GetTokenPrice => {
            reveal_strlit("zks.estimateGasL1ToL2");
            reveal_strlit("zks.getMainContract");
            reveal_strlit("zks.getTestnetPaymaster");
            reveal_strlit("zks.getBridgeContracts");
            reveal_strlit("zks.L1ChainId");
            reveal_strlit("zks.getConfirmedTokens");
            reveal_strlit("zks.getTokenPrice");
            assert("zks.estimateGasL1ToL2"@[4] != "zks.getTokenPrice"@[4]);
            assert("zks.getMainContract"@[7] != "zks.getTokenPrice"@[7]);
            assert("zks.getTestnetPaymaster"@[8] != "zks.getTokenPrice"@[8]);
            assert("zks.getBridgeContracts"@[7] != "zks.getTokenPrice"@[7]);
            assert("zks.L1ChainId"@[4] != "zks.getTokenPrice"@[4]);
            assert("zks.getConfirmedTokens"@[7] != "zks.getTokenPrice"@[7]);
        },
        ZksApi::GetAllAccountBalances => {
            reveal_strlit("zks.estimateGasL1ToL2");
            reveal_strlit("zks.getMainContract");
            reveal_strlit("zks.getTestnetPaymaster");
            reveal_strlit("zks.getBridgeContracts");
            reveal_strlit("zks.L1ChainId");
            reveal_strlit("zks.getConfirmedTokens");
            reveal_strlit("zks.getTokenPrice");
            reveal_strlit("zks.getAllAccountBalances");
            assert("zks.estimateGasL1ToL2"@[4] != "zks.getAllAccountBalances"@[4]);
            assert("zks.getMainContract"@[7] != "zks.getAllAccountBalances"@[7]);
            assert("zks.getTestnetPaymaster"@[7] != "zks.getAllAccountBalances"@[7]);
            assert("zks.getBridgeContracts"@[7] != "zks.getAllAccountBalances"@[7]);
            assert("zks.L1ChainId"@[4] != "zks.getAllAccountBalances"@[4]);
            assert("zks.getConfirmedTokens"@[7] != "zks.getAllAccountBalances"@[7]);
            assert("zks.getTokenPrice"@[7] != "zks.getAllAccountBalances"@[7]);
        },
        ZksApi::GetL2ToL1MsgProof => {
            reveal_strlit("zks.estimateGasL1ToL2");
            reveal_strlit("zks.getMainContract");
            reveal_strlit("zks.getTestnetPaymaster");
            reveal_strlit("zks.getBridgeContracts");
            reveal_strlit("zks.L1ChainId");
            reveal_strlit("zks.getConfirmedTokens");
            reveal_strlit("zks.getTokenPrice");
            reveal_strlit("zks.getAllAccountBalances");
            reveal_strlit("zks.getL2ToL1MsgProof");
            assert("zks.estimateGasL1ToL2"@[4] != "zks.getL2ToL1MsgProof"@[4]);
            assert("zks.getMainContract"@[7] != "zks.getL2ToL1MsgProof"@[7]);
            assert("zks.getTestnetPaymaster"@[7] != "zks.getL2ToL1MsgProof"@[7]);
            assert("zks.getBridgeContracts"@[7] != "zks.getL2ToL1MsgProof"@[7]);
            assert("zks.L1ChainId"@[4] != "zks.getL2ToL1MsgProof"@[4]);
            assert("zks.getConfirmedTokens"@[7] != "zks.getL2ToL1MsgProof"@[7]);
            assert("zks.getTokenPrice"@[7] != "zks.getL2ToL1MsgProof"@[7]);
            assert("zks.getAllAccountBalances"@[7] != "zks.getL2ToL1MsgProof"@[7]);
        },
        ZksApi::GetL2ToL1LogProof => {
            reveal_strlit("zks.estimateGasL1ToL2");
            reveal_strlit("zks.getMainContract");
            reveal_strlit("zks.getTestnetPaymaster");
            reveal_strlit("zks.getBridgeContracts");
            reveal_strlit("zks.L1ChainId");
            reveal_strlit("zks.getConfirmedTokens");
            reveal_strlit("zks.getTokenPrice");
            reveal_strlit("zks.getAllAccountBalances");
            reveal_strlit("zks.getL2ToL1MsgProof");
            reveal_strlit("zks.getL2ToL1LogProof");
            assert("zks.estimateGasL1ToL2"@[4] != "zks.getL2ToL1LogProof"@[4]);
            assert("zks.getMainContract"@[7] != "zks.getL2ToL1LogProof"@[7]);
            assert("zks.getTestnetPaymaster"@[7] != "zks.getL2ToL1LogProof"@[7]);
            assert("zks.getBridgeContracts"@[7] != "zks.getL2ToL1LogProof"@[7]);
            assert("zks.L1ChainId"@[4] != "zks.getL2ToL1LogProof"@[4]);
            assert("zks.getConfirmedTokens"@[7] != "zks.getL2ToL1LogProof"@[7]);
            assert("zks.getTokenPrice"@[7] != "zks.getL2ToL1LogProof"@[7]);
            assert("zks.getAllAccountBalances"@[7] != "zks.getL2ToL1LogProof"@[7]);
            assert("zks.getL2ToL1MsgProof"@[13] != "zks.getL2ToL1LogProof"@[13]);
        },
        ZksApi::L1BatchNumber => {
            reveal_strlit("zks.estimateGasL1ToL2");
            reveal_strlit("zks.getMainContract");
            reveal_strlit("zks.getTestnetPaymaster");
            reveal_strlit("zks.getBridgeContracts");
            reveal_strlit("zks.L1ChainId");
            reveal_strlit("zks.getConfirmedTokens");
            reveal_strlit("zks.getTokenPrice");
            reveal_strlit("zks.getAllAccountBalances");
            reveal_strlit("zks.getL2ToL1MsgProof");
            reveal_strlit("zks.getL2ToL1LogProof");
            reveal_strlit("zks.L1BatchNumber");
            assert("zks.estimateGasL1ToL2"@[4] != "zks.L1BatchNumber"@[4]);
            assert("zks.getMainContract"@[4] != "zks.L1BatchNumber"@[4]);
            assert("zks.getTestnetPaymaster"@[4] != "zks.L1BatchNumber"@[4]);
            assert("zks.getBridgeContracts"@[4] != "zks.L1BatchNumber"@[4]);
            assert("zks.L1ChainId"@[6] != "zks.L1BatchNumber"@[6]);
            assert("zks.getConfirmedTokens"@[4] != "zks.L1BatchNumber"@[4]);
            assert("zks.getTokenPrice"@[4] != "zks.L1BatchNumber"@[4]);
            assert("zks.getAllAccountBalances"@[4] != "zks.L1BatchNumber"@[4]);
            assert("zks.getL2ToL1MsgProof"@[4] != "zks.L1BatchNumber"@[4]);
            assert("zks.getL2ToL1LogProof"@[4] != "zks.L1BatchNumber"@[4]);
        },
        ZksApi::GetL1BatchBlockRange => {
            reveal_strlit("zks.estimateGasL1ToL2");
            reveal_strlit("zks.getMainContract");
            reveal_strlit("zks.getTestnetPaymaster");
            reveal_strlit("zks.getBridgeContracts");
            reveal_strlit("zks.L1ChainId");
            reveal_strlit("zks.getConfirmedTokens");
            reveal_strlit("zks.getTokenPrice");
            reveal_strlit("zks.getAllAccountBalances");
            reveal_strlit("zks.getL2ToL1MsgProof");
            reveal_strlit("zks.getL2ToL1LogProof");
            reveal_strlit("zks.L1BatchNumber");
            reveal_strlit("zks.getL1BatchBlockRange");
            assert("zks.estimateGasL1ToL2"@[4] != "zks.getL1BatchBlockRange"@[4]);
            assert("zks.getMainContract"@[7] != "zks.getL1BatchBlockRange"@[7]);
            assert("zks.getTestnetPaymaster"@[7] != "zks.getL1BatchBlockRange"@[7]);
            assert("zks.getBridgeContracts"@[7] != "zks.getL1BatchBlockRange"@[7]);
            assert("zks.L1ChainId"@[4] != "zks.getL1BatchBlockRange"@[4]);
            assert("zks.getConfirmedTokens"@[7] != "zks.getL1BatchBlockRange"@[7]);
            assert("zks.getTokenPrice"@[7] != "zks.getL1BatchBlockRange"@[7]);
            assert("zks.getAllAccountBalances"@[7] != "zks.getL1BatchBlockRange"@[7]);
            assert("zks.getL2ToL1MsgProof"@[8] != "zks.getL1BatchBlockRange"@[8]);
            assert("zks.getL2ToL1LogProof"@[8] != "zks.getL1BatchBlockRange"@[8]);
            assert("zks.L1BatchNumber"@[4] != "zks.getL1BatchBlockRange"@[4]);
        },
        ZksApi::GetBlockDetails => {
            reveal_strlit("zks.estimateGasL1ToL2");
            reveal_strlit("zks.getMainContract");
            reveal_strlit("zks.getTestnetPaymaster");
            reveal_strlit("zks.getBridgeContracts");
            reveal_strlit("zks.L1ChainId");
            reveal_strlit("zks.getConfirmedTokens");
            reveal_strlit("zks.getTokenPrice");
            reveal_strlit("zks.getAllAccountBalances");
            reveal_strlit("zks.getL2ToL1MsgProof");
            reveal_strlit("zks.getL2ToL1LogProof");
            reveal_strlit("zks.L1BatchNumber");
            reveal_strlit("zks.getL1BatchBlockRange");
            reveal_strlit("zks.getBlockDetails");
            assert("zks.estimateGasL1ToL2"@[4] != "zks.getBlockDetails"@[4]);
            assert("zks.getMainContract"@[7] != "zks.getBlockDetails"@[7]);
            assert("zks.getTestnetPaymaster"@[7] != "zks.getBlockDetails"@[7]);
            assert("zks.getBridgeContracts"@[8] != "zks.getBlockDetails"@[8]);
            assert("zks.L1ChainId"@[4] != "zks.getBlockDetails"@[4]);
            assert("zks.getConfirmedTokens"@[7] != "zks.getBlockDetails"@[7]);
            assert("zks.getTokenPrice"@[7] != "zks.getBlockDetails"@[7]);
            assert("zks.getAllAccountBalances"@[7] != "zks.getBlockDetails"@[7]);
            assert("zks.getL2ToL1MsgProof"@[7] != "zks.getBlockDetails"@[7]);
            assert("zks.getL2ToL1LogProof"@[7] != "zks.getBlockDetails"@[7]);
            assert("zks.L1BatchNumber"@[4] != "zks.getBlockDetails"@[4]);
            assert("zks.getL1BatchBlockRange"@[7] != "zks.getBlockDetails"@[7]);
        },
        ZksApi::GetTransactionDetails => {
            reveal_strlit("zks.estimateGasL1ToL2");
            reveal_strlit("zks.getMainContract");
            reveal_strlit("zks.getTestnetPaymaster");
            reveal_strlit("zks.getBridgeContracts");
            reveal_strlit("zks.L1ChainId");
            reveal_strlit("zks.getConfirmedTokens");
            reveal_strlit("zks.getTokenPrice");
            reveal_strlit("zks.getAllAccountBalances");
            reveal_strlit("zks.getL2ToL1MsgProof");
            reveal_strlit("zks.getL2ToL1LogProof");
            reveal_strlit("zks.L1BatchNumber");
            reveal_strlit("zks.getL1BatchBlockRange");
            reveal_strlit("zks.getBlockDetails");
            reveal_strlit("zks.getTransactionDetails");
            assert("zks.estimateGasL1ToL2"@[4] != "zks.getTransactionDetails"@[4]);
            assert("zks.getMainContract"@[7] != "zks.getTransactionDetails"@[7]);
            assert("zks.getTestnetPaymaster"@[8] != "zks.getTransactionDetails"@[8]);
            assert("zks.getBridgeContracts"@[7] != "zks.getTransactionDetails"@[7]);
            assert("zks.L1ChainId"@[4] != "zks.getTransactionDetails"@[4]);
            assert("zks.getConfirmedTokens"@[7] != "zks.getTransactionDetails"@[7]);
            assert("zks.getTokenPrice"@[8] != "zks.getTransactionDetails"@[8]);
            assert("zks.getAllAccountBalances"@[7] != "zks.getTransactionDetails"@[7]);
            assert("zks.getL2ToL1MsgProof"@[7] != "zks.getTransactionDetails"@[7]);
            assert("zks.getL2ToL1LogProof"@[7] != "zks.getTransactionDetails"@[7]);
            assert("zks.L1BatchNumber"@[4] != "zks.getTransactionDetails"@[4]);
            assert("zks.getL1BatchBlockRange"@[7] != "zks.getTransactionDetails"@[7]);
            assert("zks.getBlockDetails"@[7] != "zks.getTransactionDetails"@[7]);
        },
        ZksApi::GetRawBlockTransactions => {
            reveal_strlit("zks.estimateGasL1ToL2");
            reveal_strlit("zks.getMainContract");
            reveal_strlit("zks.getTestnetPaymaster");
            reveal_strlit("zks.getBridgeContracts");
            reveal_strlit("zks.L1ChainId");
            reveal_strlit("zks.getConfirmedTokens");
            reveal_strlit("zks.getTokenPrice");
            reveal_strlit("zks.getAllAccountBalances");
            reveal_strlit("zks.getL2ToL1MsgProof");
            reveal_strlit("zks.getL2ToL1LogProof");
            reveal_strlit("zks.L1BatchNumber");
            reveal_strlit("zks.getL1BatchBlockRange");
            reveal_strlit("zks.getBlockDetails");
            reveal_strlit("zks.getTransactionDetails");
            reveal_strlit("zks.getRawBlockTransactions");
            assert("zks.estimateGasL1ToL2"@[4] != "zks.getRawBlockTransactions"@[4]);
            assert("zks.getMainContract"@[7] != "zks.getRawBlockTransactions"@[7]);
            assert("zks.getTestnetPaymaster"@[7] != "zks.getRawBlockTransactions"@[7]);
            assert("zks.getBridgeContracts"@[7] != "zks.getRawBlockTransactions"@[7]);
            assert("zks.L1ChainId"@[4] != "zks.getRawBlockTransactions"@[4]);
            assert("zks.getConfirmedTokens"@[7] != "zks.getRawBlockTransactions"@[7]);
            assert("zks.getTokenPrice"@[7] != "zks.getRawBlockTransactions"@[7]);
            assert("zks.getAllAccountBalances"@[7] != "zks.getRawBlockTransactions"@[7]);
            assert("zks.getL2ToL1MsgProof"@[7] != "zks.getRawBlockTransactions"@[7]);
            assert("zks.getL2ToL1LogProof"@[7] != "zks.getRawBlockTransactions"@[7]);
            assert("zks.L1BatchNumber"@[4] != "zks.getRawBlockTransactions"@[4]);
            assert("zks.getL1BatchBlockRange"@[7] != "zks.getRawBlockTransactions"@[7]);
            assert("zks.getBlockDetails"@[7] != "zks.getRawBlockTransactions"@[7]);
            assert("zks.getTransactionDetails"@[7] != "zks.getRawBlockTransactions"@[7]);
        },
        ZksApi::GetL1BatchDetails => {
            reveal_strlit("zks.estimateGasL1ToL2");
            reveal_strlit("zks.getMainContract");
            reveal_strlit("zks.getTestnetPaymaster");
            reveal_strlit("zks.getBridgeContracts");
            reveal_strlit("zks.L1ChainId");
            reveal_strlit("zks.getConfirmedTokens");
            reveal_strlit("zks.getTokenPrice");
            reveal_strlit("zks.getAllAccountBalances");
            reveal_strlit("zks.getL2ToL1MsgProof");
            reveal_strlit("zks.getL2ToL1LogProof");
            reveal_strlit("zks.L1BatchNumber");
            reveal_strlit("zks.getL1BatchBlockRange");
            reveal_strlit("zks.getBlockDetails");
            reveal_strlit("zks.getTransactionDetails");
            reveal_strlit("zks.getRawBlockTransactions");
            reveal_strlit("zks.getL1BatchDetails");
            assert("zks.estimateGasL1ToL2"@[4] != "zks.getL1BatchDetails"@[4]);
            assert("zks.getMainContract"@[7] != "zks.getL1BatchDetails"@[7]);
            assert("zks.getTestnetPaymaster"@[7] != "zks.getL1BatchDetails"@[7]);
            assert("zks.getBridgeContracts"@[7] != "zks.getL1BatchDetails"@[7]);
            assert("zks.L1ChainId"@[4] != "zks.getL1BatchDetails"@[4]);
            assert("zks.getConfirmedTokens"@[7] != "zks.getL1BatchDetails"@[7]);
            assert("zks.getTokenPrice"@[7] != "zks.getL1BatchDetails"@[7]);
            assert("zks.getAllAccountBalances"@[7] != "zks.getL1BatchDetails"@[7]);
            assert("zks.getL2ToL1MsgProof"@[8] != "zks.getL1BatchDetails"@[8]);
            assert("zks.getL2ToL1LogProof"@[8] != "zks.getL1BatchDetails"@[8]);
            assert("zks.L1BatchNumber"@[4] != "zks.getL1BatchDetails"@[4]);
            assert("zks.getL1BatchBlockRange"@[14] != "zks.getL1BatchDetails"@[14]);
            assert("zks.getBlockDetails"@[7] != "zks.getL1BatchDetails"@[7]);
            assert("zks.getTransactionDetails"@[7] != "zks.getL1BatchDetails"@[7]);
            assert("zks.getRawBlockTransactions"@[7] != "zks.getL1BatchDetails"@[7]);
        },
        ZksApi::GetBytecodeByHash => {
            reveal_strlit("zks.estimateGasL1ToL2");
            reveal_strlit("zks.getMainContract");
            reveal_strlit("zks.getTestnetPaymaster");
            reveal_strlit("zks.getBridgeContracts");
            reveal_strlit("zks.L1ChainId");
            reveal_strlit("zks.getConfirmedTokens");
            reveal_strlit("zks.getTokenPrice");
            reveal_strlit("zks.getAllAccountBalances");
            reveal_strlit("zks.getL2ToL1MsgProof");
            reveal_strlit("zks.getL2ToL1LogProof");
            reveal_strlit("zks.L1BatchNumber");
            reveal_strlit("zks.getL1BatchBlockRange");
            reveal_strlit("zks.getBlockDetails");
            reveal_strlit("zks.getTransactionDetails");
            reveal_strlit("zks.getRawBlockTransactions");
            reveal_strlit("zks.getL1BatchDetails");
            reveal_strlit("zks.getBytecodeByHash");
            assert("zks.estimateGasL1ToL2"@[4] != "zks.getBytecodeByHash"@[4]);
            assert("zks.getMainContract"@[7] != "zks.getBytecodeByHash"@[7]);
            assert("zks.getTestnetPaymaster"@[7] != "zks.getBytecodeByHash"@[7]);
            assert("zks.getBridgeContracts"@[8] != "zks.getBytecodeByHash"@[8]);
            assert("zks.L1ChainId"@[4] != "zks.getBytecodeByHash"@[4]);
            assert("zks.getConfirmedTokens"@[7] != "zks.getBytecodeByHash"@[7]);
            assert("zks.getTokenPrice"@[7] != "zks.getBytecodeByHash"@[7]);
            assert("zks.getAllAccountBalances"@[7] != "zks.getBytecodeByHash"@[7]);
            assert("zks.getL2ToL1MsgProof"@[7] != "zks.getBytecodeByHash"@[7]);
            assert("zks.getL2ToL1LogProof"@[7] != "zks.getBytecodeByHash"@[7]);
            assert("zks.L1BatchNumber"@[4] != "zks.getBytecodeByHash"@[4]);
            assert("zks.getL1BatchBlockRange"@[7] != "zks.getBytecodeByHash"@[7]);
            assert("zks.getBlockDetails"@[8] != "zks.getBytecodeByHash"@[8]);
            assert("zks.getTransactionDetails"@[7] != "zks.getBytecodeByHash"@[7]);
            assert("zks.getRawBlockTransactions"@[7] != "zks.getBytecodeByHash"@[7]);
            assert("zks.getL1BatchDetails"@[7] != "zks.getBytecodeByHash"@[7]);
        },
        ZksApi::GetL1GasPrice => {
            reveal_strlit("zks.estimateGasL1ToL2");
            reveal_strlit("zks.getMainContract");
            reveal_strlit("zks.getTestnetPaymaster");
            reveal_strlit("zks.getBridgeContracts");
            reveal_strlit("zks.L1ChainId");
            reveal_strlit("zks.getConfirmedTokens");
            reveal_strlit("zks.getTokenPrice");
            reveal_strlit("zks.getAllAccountBalances");
            reveal_strlit("zks.getL2ToL1MsgProof");
            reveal_strlit("zks.getL2ToL1LogProof");
            reveal_strlit("zks.L1BatchNumber");
            reveal_strlit("zks.getL1BatchBlockRange");
            reveal_strlit("zks.getBlockDetails");
            reveal_strlit("zks.getTransactionDetails");
            reveal_strlit("zks.getRawBlockTransactions");
            reveal_strlit("zks.getL1BatchDetails");
            reveal_strlit("zks.getBytecodeByHash");
            reveal_strlit("zks.getL1GasPrice");
            assert("zks.estimateGasL1ToL2"@[4] != "zks.getL1GasPrice"@[4]);
            assert("zks.getMainContract"@[7] != "zks.getL1GasPrice"@[7]);
            assert("zks.getTestnetPaymaster"@[7] != "zks.getL1GasPrice"@[7]);
            assert("zks.getBridgeContracts"@[7] != "zks.getL1GasPrice"@[7]);
            assert("zks.L1ChainId"@[4] != "zks.getL1GasPrice"@[4]);
            assert("zks.getConfirmedTokens"@[7] != "zks.getL1GasPrice"@[7]);
            assert("zks.getTokenPrice"@[7] != "zks.getL1GasPrice"@[7]);
            assert("zks.getAllAccountBalances"@[7] != "zks.getL1GasPrice"@[7]);
            assert("zks.getL2ToL1MsgProof"@[8] != "zks.getL1GasPrice"@[8]);
            assert("zks.getL2ToL1LogProof"@[8] != "zks.getL1GasPrice"@[8]);
            assert("zks.L1BatchNumber"@[4] != "zks.getL1GasPrice"@[4]);
            assert("zks.getL1BatchBlockRange"@[9] != "zks.getL1GasPrice"@[9]);
            assert("zks.getBlockDetails"@[7] != "zks.getL1GasPrice"@[7]);
            assert("zks.getTransactionDetails"@[7] != "zks.getL1GasPrice"@[7]);
            assert("zks.getRawBlockTransactions"@[7] != "zks.getL1GasPrice"@[7]);
            assert("zks.getL1BatchDetails"@[9] != "zks.getL1GasPrice"@[9]);
            assert("zks.getBytecodeByHash"@[7] != "zks.getL1GasPrice"@[7]);
        },
        ZksApi::GetFeeParams => {
            reveal_strlit("zks.estimateGasL1ToL2");
            reveal_strlit("zks.getMainContract");
            reveal_strlit("zks.getTestnetPaymaster");
            reveal_strlit("zks.getBridgeContracts");
            reveal_strlit("zks.L1ChainId");
            reveal_strlit("zks.getConfirmedTokens");
            reveal_strlit("zks.getTokenPrice");
            reveal_strlit("zks.getAllAccountBalances");
            reveal_strlit("zks.getL2ToL1MsgProof");
            reveal_strlit("zks.getL2ToL1LogProof");
            reveal_strlit("zks.L1BatchNumber");
            reveal_strlit("zks.getL1BatchBlockRange");
            reveal_strlit("zks.getBlockDetails");
            reveal_strlit("zks.getTransactionDetails");
            reveal_strlit("zks.getRawBlockTransactions");
            reveal_strlit("zks.getL1BatchDetails");
            reveal_strlit("zks.getBytecodeByHash");
            reveal_strlit("zks.getL1GasPrice");
            reveal_strlit("zks.getFeeParams");
            assert("zks.estimateGasL1ToL2"@[4] != "zks.getFeeParams"@[4]);
            assert("zks.getMainContract"@[7] != "zks.getFeeParams"@[7]);
            assert("zks.getTestnetPaymaster"@[7] != "zks.getFeeParams"@[7]);
            assert("zks.getBridgeContracts"@[7] != "zks.getFeeParams"@[7]);
            assert("zks.L1ChainId"@[4] != "zks.getFeeParams"@[4]);
            assert("zks.getConfirmedTokens"@[7] != "zks.getFeeParams"@[7]);
            assert("zks.getTokenPrice"@[7] != "zks.getFeeParams"@[7]);
            assert("zks.getAllAccountBalances"@[7] != "zks.getFeeParams"@[7]);
            assert("zks.getL2ToL1MsgProof"@[7] != "zks.getFeeParams"@[7]);
            assert("zks.getL2ToL1LogProof"@[7] != "zks.getFeeParams"@[7]);
            assert("zks.L1BatchNumber"@[4] != "zks.getFeeParams"@[4]);
            assert("zks.getL1BatchBlockRange"@[7] != "zks.getFeeParams"@[7]);
            assert("zks.getBlockDetails"@[7] != "zks.getFeeParams"@[7]);
            assert("zks.getTransactionDetails"@[7] != "zks.getFeeParams"@[7]);
            assert("zks.getRawBlockTransactions"@[7] != "zks.getFeeParams"@[7]);
            assert("zks.getL1BatchDetails"@[7] != "zks.getFeeParams"@[7]);
            assert("zks.getBytecodeByHash"@[7] != "zks.getFeeParams"@[7]);
            assert("zks.getL1GasPrice"@[7] != "zks.getFeeParams"@[7]);
        },
        ZksApi::GetProtocolVersion => {
            reveal_strlit("zks.estimateGasL1ToL2");
            reveal_strlit("zks.getMainContract");
            reveal_strlit("zks.getTestnetPaymaster");
            reveal_strlit("zks.getBridgeContracts");
            reveal_strlit("zks.L1ChainId");
            reveal_strlit("zks.getConfirmedTokens");
            reveal_strlit("zks.getTokenPrice");
            reveal_strlit("zks.getAllAccountBalances");
            reveal_strlit("zks.getL2ToL1MsgProof");
            reveal_strlit("zks.getL2ToL1LogProof");
            reveal_strlit("zks.L1BatchNumber");
            reveal_strlit("zks.getL1BatchBlockRange");
            reveal_strlit("zks.getBlockDetails");
            reveal_strlit("zks.getTransactionDetails");
            reveal_strlit("zks.getRawBlockTransactions");
            reveal_strlit("zks.getL1BatchDetails");
            reveal_strlit("zks.getBytecodeByHash");
            reveal_strlit("zks.getL1GasPrice");
            reveal_strlit("zks.getFeeParams");
            reveal_strlit("zks.getProtocolVersion");
            assert("zks.estimateGasL1ToL2"@[4] != "zks.getProtocolVersion"@[4]);
            assert("zks.getMainContract"@[7] != "zks.getProtocolVersion"@[7]);
            assert("zks.getTestnetPaymaster"@[7] != "zks.getProtocolVersion"@[7]);
            assert("zks.getBridgeContracts"@[7] != "zks.getProtocolVersion"@[7]);
            assert("zks.L1ChainId"@[4] != "zks.getProtocolVersion"@[4]);
            assert("zks.getConfirmedTokens"@[7] != "zks.getProtocolVersion"@[7]);
            assert("zks.getTokenPrice"@[7] != "zks.getProtocolVersion"@[7]);
            assert("zks.getAllAccountBalances"@[7] != "zks.getProtocolVersion"@[7]);
            assert("zks.getL2ToL1MsgProof"@[7] != "zks.getProtocolVersion"@[7]);
            assert("zks.getL2ToL1LogProof"@[7] != "zks.getProtocolVersion"@[7]);
            assert("zks.L1BatchNumber"@[4] != "zks.getProtocolVersion"@[4]);
            assert("zks.getL1BatchBlockRange"@[7] != "zks.getProtocolVersion"@[7]);
            assert("zks.getBlockDetails"@[7] != "zks.getProtocolVersion"@[7]);
            assert("zks.getTransactionDetails"@[7] != "zks.getProtocolVersion"@[7]);
            assert("zks.getRawBlockTransactions"@[7] != "zks.getProtocolVersion"@[7]);
            assert("zks.getL1BatchDetails"@[7] != "zks.getProtocolVersion"@[7]);
            assert("zks.getBytecodeByHash"@[7] != "zks.getProtocolVersion"@[7]);
            assert("zks.getL1GasPrice"@[7] != "zks.getProtocolVersion"@[7]);
            assert("zks.getFeeParams"@[7] != "zks.getProtocolVersion"@[7]);
        },
        ZksApi::GetProof => {
            reveal_strlit("zks.estimateGasL1ToL2");
            reveal_strlit("zks.getMainContract");
            reveal_strlit("zks.getTestnetPaymaster");
            reveal_strlit("zks.getBridgeContracts");
            reveal_strlit("zks.L1ChainId");
            reveal_strlit("zks.getConfirmedTokens");
            reveal_strlit("zks.getTokenPrice");
            reveal_strlit("zks.getAllAccountBalances");
            reveal_strlit("zks.getL2ToL1MsgProof");
            reveal_strlit("zks.getL2ToL1LogProof");
            reveal_strlit("zks.L1BatchNumber");
            reveal_strlit("zks.getL1BatchBlockRange");
            reveal_strlit("zks.getBlockDetails");
            reveal_strlit("zks.getTransactionDetails");
            reveal_strlit("zks.getRawBlockTransactions");
            reveal_strlit("zks.getL1BatchDetails");
            reveal_strlit("zks.getBytecodeByHash");
            reveal_strlit("zks.getL1GasPrice");
            reveal_strlit("zks.getFeeParams");
            reveal_strlit("zks.getProtocolVersion");
            reveal_strlit("zks.getProof");
            assert("zks.estimateGasL1ToL2"@[4] != "zks.getProof"@[4]);
            assert("zks.getMainContract"@[7] != "zks.getProof"@[7]);
            assert("zks.getTestnetPaymaster"@[7] != "zks.getProof"@[7]);
            assert("zks.getBridgeContracts"@[7] != "zks.getProof"@[7]);
            assert("zks.L1ChainId"@[4] != "zks.getProof"@[4]);
            assert("zks.getConfirmedTokens"@[7] != "zks.getProof"@[7]);
            assert("zks.getTokenPrice"@[7] != "zks.getProof"@[7]);
            assert("zks.getAllAccountBalances"@[7] != "zks.getProof"@[7]);
            assert("zks.getL2ToL1MsgProof"@[7] != "zks.getProof"@[7]);
            assert("zks.getL2ToL1LogProof"@[7] != "zks.getProof"@[7]);
            assert("zks.L1BatchNumber"@[4] != "zks.getProof"@[4]);
            assert("zks.getL1BatchBlockRange"@[7] != "zks.getProof"@[7]);
            assert("zks.getBlockDetails"@[7] != "zks.getProof"@[7]);
            assert("zks.getTransactionDetails"@[7] != "zks.getProof"@[7]);
            assert("zks.getRawBlockTransactions"@[7] != "zks.getProof"@[7]);
            assert("zks.getL1BatchDetails"@[7] != "zks.getProof"@[7]);
            assert("zks.getBytecodeByHash"@[7] != "zks.getProof"@[7]);
            assert("zks.getL1GasPrice"@[7] != "zks.getProof"@[7]);
            assert("zks.getFeeParams"@[7] != "zks.getProof"@[7]);
            assert("zks.getProtocolVersion"@[10] != "zks.getProof"@[10]);
        },
    }
}

} // verus!
