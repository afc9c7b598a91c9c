//! The dispatch table: which of four policies serves each Ethereum JSON-RPC
//! method, and the parameters a delegated call receives.
use vstd::prelude::*;

use crate::errors::EthApiError;
use crate::types::{BlockId, BlockNumberOrTag};

verus! {

/// The Ethereum JSON-RPC methods served by the façade.
#[derive(Clone, Copy, Debug, PartialEq, Eq, Hash)]
pub enum EthMethod {
    BlockNumber,
    Syncing,
    Coinbase,
    Accounts,
    ChainId,
    BlockByHash,
    BlockByNumber,
    BlockTransactionCountByHash,
    BlockTransactionCountByNumber,
    BlockUnclesCountByBlockHash,
    BlockUnclesCountByBlockNumber,
    UncleByBlockHashAndIndex,
    UncleByBlockNumberAndIndex,
    TransactionByHash,
    TransactionByBlockHashAndIndex,
    TransactionByBlockNumberAndIndex,
    TransactionReceipt,
    Balance,
    StorageAt,
    TransactionCount,
    GetCode,
    GetLogs,
    Call,
    CreateAccessList,
    EstimateGas,
    GasPrice,
    FeeHistory,
    MaxPriorityFeePerGas,
    Mining,
    Hashrate,
    GetWork,
    SubmitHashrate,
    SubmitWork,
    SendTransaction,
    SendRawTransaction,
    Sign,
    SignTransaction,
    SignTypedData,
    GetProof,
    NewFilter,
    NewBlockFilter,
    NewPendingTransactionFilter,
    UninstallFilter,
    GetFilterChanges,
    GetFilterLogs,
}

/// How a method is served.
#[derive(Clone, Copy, Debug, PartialEq, Eq, Hash)]
pub enum MethodPolicy {
    /// Forwarded unchanged to the read capability.
    ReadCapability,
    /// Answered with a fixed, protocol-valid value.
    ChainConstant,
    /// Forwarded to the execution capability.
    ExecutionCapability,
    /// Always fails with `EthApiError::MethodNotSupported`.
    NotSupported,
}

/// The fixed answers of the methods whose subject this chain never produces.
#[derive(Clone, Copy, Debug, PartialEq, Eq, Hash)]
pub enum ChainConstant {
    /// An uncle count of zero.
    ZeroUncleCount,
    /// No uncle at the index asked for.
    NoUncle,
    /// No managed accounts.
    NoAccounts,
}

/// What the façade does with one call.
#[derive(Clone, Debug, PartialEq, Eq)]
pub enum Route {
    /// Ask the read capability, with this block identifier where the method
    /// takes one.
    Read { block_id: Option<BlockId> },
    /// Ask the execution capability, with this block identifier where the
    /// method takes one.
    Execute { block_id: Option<BlockId> },
    /// Answer with a constant.
    Reply(ChainConstant),
    /// Fail.
    Fail(EthApiError),
}

pub open spec fn policy_of(m: EthMethod) -> MethodPolicy {
    match m {
        EthMethod::BlockNumber => MethodPolicy::ReadCapability,
        EthMethod::Syncing => MethodPolicy::ReadCapability,
        EthMethod::Coinbase => MethodPolicy::NotSupported,
        EthMethod::Accounts => MethodPolicy::ChainConstant,
        EthMethod::ChainId => MethodPolicy::ReadCapability,
        EthMethod::BlockByHash => MethodPolicy::ReadCapability,
        EthMethod::BlockByNumber => MethodPolicy::ReadCapability,
        EthMethod::BlockTransactionCountByHash => MethodPolicy::ReadCapability,
        EthMethod::BlockTransactionCountByNumber => MethodPolicy::ReadCapability,
        EthMethod::BlockUnclesCountByBlockHash => MethodPolicy::ChainConstant,
        EthMethod::BlockUnclesCountByBlockNumber => MethodPolicy::ChainConstant,
        EthMethod::UncleByBlockHashAndIndex => MethodPolicy::ChainConstant,
        EthMethod::UncleByBlockNumberAndIndex => MethodPolicy::ChainConstant,
        EthMethod::TransactionByHash => MethodPolicy::ReadCapability,
        EthMethod::TransactionByBlockHashAndIndex => MethodPolicy::ReadCapability,
        EthMethod::TransactionByBlockNumberAndIndex => MethodPolicy::ReadCapability,
        EthMethod::TransactionReceipt => MethodPolicy::ReadCapability,
        EthMethod::Balance => MethodPolicy::ReadCapability,
        EthMethod::StorageAt => MethodPolicy::ReadCapability,
        EthMethod::TransactionCount => MethodPolicy::ReadCapability,
        EthMethod::GetCode => MethodPolicy::ReadCapability,
        EthMethod::GetLogs => MethodPolicy::ReadCapability,
        EthMethod::Call => MethodPolicy::ExecutionCapability,
        EthMethod::CreateAccessList => MethodPolicy::NotSupported,
        EthMethod::EstimateGas => MethodPolicy::ExecutionCapability,
        EthMethod::GasPrice => MethodPolicy::ExecutionCapability,
        EthMethod::FeeHistory => MethodPolicy::ExecutionCapability,
        EthMethod::MaxPriorityFeePerGas => MethodPolicy::ExecutionCapability,
        EthMethod::Mining => MethodPolicy::NotSupported,
        EthMethod::Hashrate => MethodPolicy::NotSupported,
        EthMethod::GetWork => MethodPolicy::NotSupported,
        EthMethod::SubmitHashrate => MethodPolicy::NotSupported,
        EthMethod::SubmitWork => MethodPolicy::NotSupported,
        EthMethod::SendTransaction => MethodPolicy::NotSupported,
        EthMethod::SendRawTransaction => MethodPolicy::ExecutionCapability,
        EthMethod::Sign => MethodPolicy::NotSupported,
        EthMethod::SignTransaction => MethodPolicy::NotSupported,
        EthMethod::SignTypedData => MethodPolicy::NotSupported,
        EthMethod::GetProof => MethodPolicy::NotSupported,
        EthMethod::NewFilter => MethodPolicy::NotSupported,
        EthMethod::NewBlockFilter => MethodPolicy::NotSupported,
        EthMethod::NewPendingTransactionFilter => MethodPolicy::NotSupported,
        EthMethod::UninstallFilter => MethodPolicy::NotSupported,
        EthMethod::GetFilterChanges => MethodPolicy::NotSupported,
        EthMethod::GetFilterLogs => MethodPolicy::NotSupported,
    }
}

/// The method's name on the wire.
pub open spec fn canonical_name(m: EthMethod) -> Seq<char> {
    match m {
        EthMethod::BlockNumber => "eth_blockNumber"@,
        EthMethod::Syncing => "eth_syncing"@,
        EthMethod::Coinbase => "eth_coinbase"@,
        EthMethod::Accounts => "eth_accounts"@,
        EthMethod::ChainId => "eth_chainId"@,
        EthMethod::BlockByHash => "eth_getBlockByHash"@,
        EthMethod::BlockByNumber => "eth_getBlockByNumber"@,
        EthMethod::BlockTransactionCountByHash => "eth_getBlockTransactionCountByHash"@,
        EthMethod::BlockTransactionCountByNumber => "eth_getBlockTransactionCountByNumber"@,
        EthMethod::BlockUnclesCountByBlockHash => "eth_getUncleCountByBlockHash"@,
        EthMethod::BlockUnclesCountByBlockNumber => "eth_getUncleCountByBlockNumber"@,
        EthMethod::UncleByBlockHashAndIndex => "eth_getUncleByBlockHashAndIndex"@,
        EthMethod::UncleByBlockNumberAndIndex => "eth_getUncleByBlockNumberAndIndex"@,
        EthMethod::TransactionByHash => "eth_getTransactionByHash"@,
        EthMethod::TransactionByBlockHashAndIndex => "eth_getTransactionByBlockHashAndIndex"@,
        EthMethod::TransactionByBlockNumberAndIndex => "eth_getTransactionByBlockNumberAndIndex"@,
        EthMethod::TransactionReceipt => "eth_getTransactionReceipt"@,
        EthMethod::Balance => "eth_getBalance"@,
        EthMethod::StorageAt => "eth_getStorageAt"@,
        EthMethod::TransactionCount => "eth_getTransactionCount"@,
        EthMethod::GetCode => "eth_getCode"@,
        EthMethod::GetLogs => "eth_getLogs"@,
        EthMethod::Call => "eth_call"@,
        EthMethod::CreateAccessList => "eth_createAccessList"@,
        EthMethod::EstimateGas => "eth_estimateGas"@,
        EthMethod::GasPrice => "eth_gasPrice"@,
        EthMethod::FeeHistory => "eth_feeHistory"@,
        EthMethod::MaxPriorityFeePerGas => "eth_maxPriorityFeePerGas"@,
        EthMethod::Mining => "eth_mining"@,
        EthMethod::Hashrate => "eth_hashrate"@,
        EthMethod::GetWork => "eth_getWork"@,
        EthMethod::SubmitHashrate => "eth_submitHashrate"@,
        EthMethod::SubmitWork => "eth_submitWork"@,
        EthMethod::SendTransaction => "eth_sendTransaction"@,
        EthMethod::SendRawTransaction => "eth_sendRawTransaction"@,
        EthMethod::Sign => "eth_sign"@,
        EthMethod::SignTransaction => "eth_signTransaction"@,
        EthMethod::SignTypedData => "eth_signTypedData"@,
        EthMethod::GetProof => "eth_getProof"@,
        EthMethod::NewFilter => "eth_newFilter"@,
        EthMethod::NewBlockFilter => "eth_newBlockFilter"@,
        EthMethod::NewPendingTransactionFilter => "eth_newPendingTransactionFilter"@,
        EthMethod::UninstallFilter => "eth_uninstallFilter"@,
        EthMethod::GetFilterChanges => "eth_getFilterChanges"@,
        EthMethod::GetFilterLogs => "eth_getFilterLogs"@,
    }
}

/// The method takes an optional block identifier.
pub open spec fn takes_block_id(m: EthMethod) -> bool {
    match m {
        EthMethod::Balance => true,
        EthMethod::StorageAt => true,
        EthMethod::TransactionCount => true,
        EthMethod::GetCode => true,
        EthMethod::Call => true,
        EthMethod::CreateAccessList => true,
        EthMethod::EstimateGas => true,
        EthMethod::GetProof => true,
        _ => false,
    }
}

pub open spec fn constant_of(m: EthMethod) -> ChainConstant {
    match m {
        EthMethod::Accounts => ChainConstant::NoAccounts,
        EthMethod::BlockUnclesCountByBlockHash => ChainConstant::ZeroUncleCount,
        EthMethod::BlockUnclesCountByBlockNumber => ChainConstant::ZeroUncleCount,
        EthMethod::UncleByBlockHashAndIndex => ChainConstant::NoUncle,
        EthMethod::UncleByBlockNumberAndIndex => ChainConstant::NoUncle,
        _ => ChainConstant::NoAccounts,
    }
}

/// An absent block identifier stands for the latest block.
pub open spec fn resolved_block_id(b: Option<BlockId>) -> BlockId {
    match b {
        Some(id) => id,
        None => BlockId::Number(BlockNumberOrTag::Latest),
    }
}

/// The block identifier that a delegated call of `m` receives.
pub open spec fn forwarded_block_id(m: EthMethod, b: Option<BlockId>) -> Option<BlockId> {
    if takes_block_id(m) {
        Some(resolved_block_id(b))
    } else {
        None
    }
}

/// `r` is the failure that names `m` as not supported.
pub open spec fn fails_unsupported<T>(r: Result<T, EthApiError>, m: EthMethod) -> bool {
    match r {
        Err(EthApiError::MethodNotSupported(name)) => name@ == canonical_name(m),
        _ => false,
    }
}

/// The policy that serves `m`.
pub fn policy(m: EthMethod) -> (r: MethodPolicy)
    ensures
        r == policy_of(m),
{
    match m {
        EthMethod::BlockNumber => MethodPolicy::ReadCapability,
        EthMethod::Syncing => MethodPolicy::ReadCapability,
        EthMethod::Coinbase => MethodPolicy::NotSupported,
        EthMethod::Accounts => MethodPolicy::ChainConstant,
        EthMethod::ChainId => MethodPolicy::ReadCapability,
        EthMethod::BlockByHash => MethodPolicy::ReadCapability,
        EthMethod::BlockByNumber => MethodPolicy::ReadCapability,
        EthMethod::BlockTransactionCountByHash => MethodPolicy::ReadCapability,
        EthMethod::BlockTransactionCountByNumber => MethodPolicy::ReadCapability,
        EthMethod::BlockUnclesCountByBlockHash => MethodPolicy::ChainConstant,
        EthMethod::BlockUnclesCountByBlockNumber => MethodPolicy::ChainConstant,
        EthMethod::UncleByBlockHashAndIndex => MethodPolicy::ChainConstant,
        EthMethod::UncleByBlockNumberAndIndex => MethodPolicy::ChainConstant,
        EthMethod::TransactionByHash => MethodPolicy::ReadCapability,
        EthMethod::TransactionByBlockHashAndIndex => MethodPolicy::ReadCapability,
        EthMethod::TransactionByBlockNumberAndIndex => MethodPolicy::ReadCapability,
        EthMethod::TransactionReceipt => MethodPolicy::ReadCapability,
        EthMethod::Balance => MethodPolicy::ReadCapability,
        EthMethod::StorageAt => MethodPolicy::ReadCapability,
        EthMethod::TransactionCount => MethodPolicy::ReadCapability,
        EthMethod::GetCode => MethodPolicy::ReadCapability,
        EthMethod::GetLogs => MethodPolicy::ReadCapability,
        EthMethod::Call => MethodPolicy::ExecutionCapability,
        EthMethod::CreateAccessList => MethodPolicy::NotSupported,
        EthMethod::EstimateGas => MethodPolicy::ExecutionCapability,
        EthMethod::GasPrice => MethodPolicy::ExecutionCapability,
        EthMethod::FeeHistory => MethodPolicy::ExecutionCapability,
        EthMethod::MaxPriorityFeePerGas => MethodPolicy::ExecutionCapability,
        EthMethod::Mining => MethodPolicy::NotSupported,
        EthMethod::Hashrate => MethodPolicy::NotSupported,
        EthMethod::GetWork => MethodPolicy::NotSupported,
        EthMethod::SubmitHashrate => MethodPolicy::NotSupported,
        EthMethod::SubmitWork => MethodPolicy::NotSupported,
        EthMethod::SendTransaction => MethodPolicy::NotSupported,
        EthMethod::SendRawTransaction => MethodPolicy::ExecutionCapability,
        EthMethod::Sign => MethodPolicy::NotSupported,
        EthMethod::SignTransaction => MethodPolicy::NotSupported,
        EthMethod::SignTypedData => MethodPolicy::NotSupported,
        EthMethod::GetProof => MethodPolicy::NotSupported,
        EthMethod::NewFilter => MethodPolicy::NotSupported,
        EthMethod::NewBlockFilter => MethodPolicy::NotSupported,
        EthMethod::NewPendingTransactionFilter => MethodPolicy::NotSupported,
        EthMethod::UninstallFilter => MethodPolicy::NotSupported,
        EthMethod::GetFilterChanges => MethodPolicy::NotSupported,
        EthMethod::GetFilterLogs => MethodPolicy::NotSupported,
    }
}

/// The method's name on the wire.
pub fn method_name(m: EthMethod) -> (r: String)
    ensures
        r@ == canonical_name(m),
{
    match m {
        EthMethod::BlockNumber => String::from_str("eth_blockNumber"),
        EthMethod::Syncing => String::from_str("eth_syncing"),
        EthMethod::Coinbase => String::from_str("eth_coinbase"),
        EthMethod::Accounts => String::from_str("eth_accounts"),
        EthMethod::ChainId => String::from_str("eth_chainId"),
        EthMethod::BlockByHash => String::from_str("eth_getBlockByHash"),
        EthMethod::BlockByNumber => String::from_str("eth_getBlockByNumber"),
        EthMethod::BlockTransactionCountByHash => String::from_str("eth_getBlockTransactionCountByHash"),
        EthMethod::BlockTransactionCountByNumber => String::from_str("eth_getBlockTransactionCountByNumber"),
        EthMethod::BlockUnclesCountByBlockHash => String::from_str("eth_getUncleCountByBlockHash"),
        EthMethod::BlockUnclesCountByBlockNumber => String::from_str("eth_getUncleCountByBlockNumber"),
        EthMethod::UncleByBlockHashAndIndex => String::from_str("eth_getUncleByBlockHashAndIndex"),
        EthMethod::UncleByBlockNumberAndIndex => String::from_str("eth_getUncleByBlockNumberAndIndex"),
        EthMethod::TransactionByHash => String::from_str("eth_getTransactionByHash"),
        EthMethod::TransactionByBlockHashAndIndex => String::from_str("eth_getTransactionByBlockHashAndIndex"),
        EthMethod::TransactionByBlockNumberAndIndex => String::from_str("eth_getTransactionByBlockNumberAndIndex"),
        EthMethod::TransactionReceipt => String::from_str("eth_getTransactionReceipt"),
        EthMethod::Balance => String::from_str("eth_getBalance"),
        EthMethod::StorageAt => String::from_str("eth_getStorageAt"),
        EthMethod::TransactionCount => String::from_str("eth_getTransactionCount"),
        EthMethod::GetCode => String::from_str("eth_getCode"),
        EthMethod::GetLogs => String::from_str("eth_getLogs"),
        EthMethod::Call => String::from_str("eth_call"),
        EthMethod::CreateAccessList => String::from_str("eth_createAccessList"),
        EthMethod::EstimateGas => String::from_str("eth_estimateGas"),
        EthMethod::GasPrice => String::from_str("eth_gasPrice"),
        EthMethod::FeeHistory => String::from_str("eth_feeHistory"),
        EthMethod::MaxPriorityFeePerGas => String::from_str("eth_maxPriorityFeePerGas"),
        EthMethod::Mining => String::from_str("eth_mining"),
        EthMethod::Hashrate => String::from_str("eth_hashrate"),
        EthMethod::GetWork => String::from_str("eth_getWork"),
        EthMethod::SubmitHashrate => String::from_str("eth_submitHashrate"),
        EthMethod::SubmitWork => String::from_str("eth_submitWork"),
        EthMethod::SendTransaction => String::from_str("eth_sendTransaction"),
        EthMethod::SendRawTransaction => String::from_str("eth_sendRawTransaction"),
        EthMethod::Sign => String::from_str("eth_sign"),
        EthMethod::SignTransaction => String::from_str("eth_signTransaction"),
        EthMethod::SignTypedData => String::from_str("eth_signTypedData"),
        EthMethod::GetProof => String::from_str("eth_getProof"),
        EthMethod::NewFilter => String::from_str("eth_newFilter"),
        EthMethod::NewBlockFilter => String::from_str("eth_newBlockFilter"),
        EthMethod::NewPendingTransactionFilter => String::from_str("eth_newPendingTransactionFilter"),
        EthMethod::UninstallFilter => String::from_str("eth_uninstallFilter"),
        EthMethod::GetFilterChanges => String::from_str("eth_getFilterChanges"),
        EthMethod::GetFilterLogs => String::from_str("eth_getFilterLogs"),
    }
}

/// The given block identifier, or the latest block where none is given.
pub fn resolve_block_id(block_id: Option<BlockId>) -> (r: BlockId)
    ensures
        r == resolved_block_id(block_id),
{
    match block_id {
        Some(id) => id,
        None => BlockId::Number(BlockNumberOrTag::Latest),
    }
}

/// The failure of a method that this backend cannot serve.
pub fn unsupported<T>(m: EthMethod) -> (r: Result<T, EthApiError>)
    ensures
        fails_unsupported(r, m),
{
    Err(EthApiError::MethodNotSupported(method_name(m)))
}

/// A delegated capability's outcome as the façade's response: a success
/// value unchanged, a failure unchanged.
pub fn forward<T>(outcome: Result<T, EthApiError>) -> (r: Result<T, EthApiError>)
    ensures
        r == outcome,
{
    outcome
}

/// What the façade does with a call of `m` given the optional block
/// identifier `block_id`: the method's policy decides the route; a delegated
/// method that takes a block identifier receives the given one unchanged, or
/// the latest block where none was given; an unsupported method fails with
/// its canonical name.
pub fn dispatch(m: EthMethod, block_id: Option<BlockId>) -> (r: Route)
    ensures
        match r {
            Route::Read { block_id: b } => policy_of(m) == MethodPolicy::ReadCapability && b
                == forwarded_block_id(m, block_id),
            Route::Execute { block_id: b } => policy_of(m) == MethodPolicy::ExecutionCapability
                && b == forwarded_block_id(m, block_id),
            Route::Reply(c) => policy_of(m) == MethodPolicy::ChainConstant && c == constant_of(m),
            Route::Fail(e) => policy_of(m) == MethodPolicy::NotSupported && fails_unsupported(
                Err::<(), EthApiError>(e),
                m,
            ),
        },
{
    let forwarded = match m {
        EthMethod::Balance | EthMethod::StorageAt | EthMethod::TransactionCount | EthMethod::GetCode
        | EthMethod::Call | EthMethod::CreateAccessList | EthMethod::EstimateGas
        | EthMethod::GetProof => Some(resolve_block_id(block_id)),
        _ => None,
    };
    match policy(m) {
        MethodPolicy::ReadCapability => Route::Read { block_id: forwarded },
        MethodPolicy::ExecutionCapability => Route::Execute { block_id: forwarded },
        MethodPolicy::ChainConstant => Route::Reply(
            match m {
                EthMethod::BlockUnclesCountByBlockHash | EthMethod::BlockUnclesCountByBlockNumber => ChainConstant::ZeroUncleCount,
                EthMethod::UncleByBlockHashAndIndex | EthMethod::UncleByBlockNumberAndIndex => ChainConstant::NoUncle,
                _ => ChainConstant::NoAccounts,
            },
        ),
        MethodPolicy::NotSupported => Route::Fail(EthApiError::MethodNotSupported(method_name(m))),
    }
}

/// `eth_call` and `eth_estimateGas` hand the execution capability exactly
/// the block identifier given, and the latest block where none is given.
pub proof fn lemma_call_block_id(block_id: Option<BlockId>)
    ensures
        policy_of(EthMethod::Call) == MethodPolicy::ExecutionCapability,
        policy_of(EthMethod::EstimateGas) == MethodPolicy::ExecutionCapability,
        forwarded_block_id(EthMethod::Call, block_id) == forwarded_block_id(EthMethod::EstimateGas, block_id),
        block_id is None ==> forwarded_block_id(EthMethod::Call, block_id) == Some(
            BlockId::Number(BlockNumberOrTag::Latest),
        ),
        block_id matches Some(id) ==> forwarded_block_id(EthMethod::Call, block_id) == Some(id),
{
}

} // verus!
