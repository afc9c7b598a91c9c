use kakarot_rpc::dispatch::{
    dispatch, forward, method_name, policy, resolve_block_id, unsupported, ChainConstant, EthMethod,
    MethodPolicy, Route,
};
use kakarot_rpc::errors::EthApiError;
use kakarot_rpc::rpc::KakarotEthRpc;
use kakarot_rpc::types::{Address, BlockId, BlockNumberOrTag, H256, H64, U256};

fn rpc() -> KakarotEthRpc<(), ()> {
    KakarotEthRpc::new((), ())
}

fn not_supported(name: &str) -> EthApiError {
    EthApiError::MethodNotSupported(name.to_string())
}

fn hash(b: u8) -> H256 {
    H256 { bytes: [b; 32] }
}

fn address(b: u8) -> Address {
    Address { bytes: [b; 20] }
}

#[test]
fn unsupported_methods_fail_with_their_names() {
    let r = rpc();
    assert_eq!(r.coinbase(), Err(not_supported("eth_coinbase")));
    assert_eq!(r.mining(), Err(not_supported("eth_mining")));
    assert_eq!(r.hashrate(), Err(not_supported("eth_hashrate")));
    assert_eq!(r.get_work::<u8>(), Err(not_supported("eth_getWork")));
    assert_eq!(r.submit_hashrate(U256::from_u64(5), hash(1)), Err(not_supported("eth_submitHashrate")));
    assert_eq!(
        r.submit_work(H64 { bytes: [3; 8] }, hash(1), hash(2)),
        Err(not_supported("eth_submitWork"))
    );
    assert_eq!(r.send_transaction(7u32), Err(not_supported("eth_sendTransaction")));
    assert_eq!(r.sign(address(1), vec![1, 2, 3]), Err(not_supported("eth_sign")));
    assert_eq!(r.sign_transaction("tx"), Err(not_supported("eth_signTransaction")));
    assert_eq!(r.sign_typed_data(address(2), "{}"), Err(not_supported("eth_signTypedData")));
    assert_eq!(
        r.get_proof::<u8>(address(3), vec![hash(4)], None),
        Err(not_supported("eth_getProof"))
    );
    assert_eq!(r.new_filter(()), Err(not_supported("eth_newFilter")));
    assert_eq!(r.new_block_filter(), Err(not_supported("eth_newBlockFilter")));
    assert_eq!(
        r.new_pending_transaction_filter(),
        Err(not_supported("eth_newPendingTransactionFilter"))
    );
    assert_eq!(r.uninstall_filter(9), Err(not_supported("eth_uninstallFilter")));
    assert_eq!(r.get_filter_changes::<u8>(9), Err(not_supported("eth_getFilterChanges")));
    assert_eq!(r.get_filter_logs::<u8>(9), Err(not_supported("eth_getFilterLogs")));
    assert_eq!(
        r.create_access_list::<(), u8>((), Some(BlockId::Number(BlockNumberOrTag::Earliest))),
        Err(not_supported("eth_createAccessList"))
    );
}

#[test]
fn dispatch_fails_unsupported_methods() {
    assert_eq!(
        dispatch(EthMethod::Coinbase, None),
        Route::Fail(not_supported("eth_coinbase"))
    );
    assert_eq!(
        dispatch(EthMethod::GetProof, Some(BlockId::Hash(hash(8)))),
        Route::Fail(not_supported("eth_getProof"))
    );
    assert_eq!(
        unsupported::<u64>(EthMethod::NewFilter),
        Err(not_supported("eth_newFilter"))
    );
}

#[test]
fn uncle_counts_are_zero() {
    let r = rpc();
    assert_eq!(r.block_uncles_count_by_block_hash(hash(0xab)), Ok(U256 { limbs: [0; 4] }));
    assert_eq!(
        r.block_uncles_count_by_block_number(BlockNumberOrTag::Number(123456)),
        Ok(U256 { limbs: [0; 4] })
    );
    assert_eq!(
        dispatch(EthMethod::BlockUnclesCountByBlockHash, None),
        Route::Reply(ChainConstant::ZeroUncleCount)
    );
}

#[test]
fn uncles_are_absent() {
    let r = rpc();
    assert_eq!(r.uncle_by_block_hash_and_index::<u8>(hash(1), 0), Ok(None));
    assert_eq!(r.uncle_by_block_number_and_index::<u8>(BlockNumberOrTag::Latest, 2), Ok(None));
    assert_eq!(
        dispatch(EthMethod::UncleByBlockNumberAndIndex, None),
        Route::Reply(ChainConstant::NoUncle)
    );
}

#[test]
fn accounts_is_empty() {
    assert_eq!(rpc().accounts(), Ok(Vec::new()));
    assert_eq!(dispatch(EthMethod::Accounts, None), Route::Reply(ChainConstant::NoAccounts));
}

#[test]
fn call_defaults_to_latest() {
    let latest = Some(BlockId::Number(BlockNumberOrTag::Latest));
    assert_eq!(dispatch(EthMethod::Call, None), Route::Execute { block_id: latest });
    assert_eq!(dispatch(EthMethod::EstimateGas, None), Route::Execute { block_id: latest });
}

#[test]
fn call_keeps_explicit_block_id() {
    let given = BlockId::Number(BlockNumberOrTag::Number(42));
    assert_eq!(dispatch(EthMethod::Call, Some(given)), Route::Execute { block_id: Some(given) });
    let by_hash = BlockId::Hash(hash(7));
    assert_eq!(
        dispatch(EthMethod::EstimateGas, Some(by_hash)),
        Route::Execute { block_id: Some(by_hash) }
    );
}

#[test]
fn reads_default_to_latest() {
    let latest = Some(BlockId::Number(BlockNumberOrTag::Latest));
    assert_eq!(dispatch(EthMethod::Balance, None), Route::Read { block_id: latest });
    let safe = BlockId::Number(BlockNumberOrTag::Safe);
    assert_eq!(dispatch(EthMethod::GetCode, Some(safe)), Route::Read { block_id: Some(safe) });
    assert_eq!(dispatch(EthMethod::BlockNumber, None), Route::Read { block_id: None });
    assert_eq!(dispatch(EthMethod::GetLogs, None), Route::Read { block_id: None });
}

#[test]
fn execution_routes() {
    assert_eq!(dispatch(EthMethod::GasPrice, None), Route::Execute { block_id: None });
    assert_eq!(dispatch(EthMethod::FeeHistory, None), Route::Execute { block_id: None });
    assert_eq!(dispatch(EthMethod::SendRawTransaction, None), Route::Execute { block_id: None });
    assert_eq!(policy(EthMethod::MaxPriorityFeePerGas), MethodPolicy::ExecutionCapability);
}

#[test]
fn policies_by_method() {
    assert_eq!(policy(EthMethod::ChainId), MethodPolicy::ReadCapability);
    assert_eq!(policy(EthMethod::TransactionReceipt), MethodPolicy::ReadCapability);
    assert_eq!(policy(EthMethod::Accounts), MethodPolicy::ChainConstant);
    assert_eq!(policy(EthMethod::Sign), MethodPolicy::NotSupported);
    assert_eq!(policy(EthMethod::Call), MethodPolicy::ExecutionCapability);
}

#[test]
fn canonical_names() {
    assert_eq!(method_name(EthMethod::BlockNumber), "eth_blockNumber");
    assert_eq!(method_name(EthMethod::BlockUnclesCountByBlockHash), "eth_getUncleCountByBlockHash");
    assert_eq!(method_name(EthMethod::SendRawTransaction), "eth_sendRawTransaction");
    assert_eq!(
        method_name(EthMethod::NewPendingTransactionFilter),
        "eth_newPendingTransactionFilter"
    );
}

#[test]
fn resolve_block_id_defaults() {
    assert_eq!(resolve_block_id(None), BlockId::Number(BlockNumberOrTag::Latest));
    let p = BlockId::Number(BlockNumberOrTag::Pending);
    assert_eq!(resolve_block_id(Some(p)), p);
}

#[test]
fn forward_passes_results_unchanged() {
    let ok: Result<u64, EthApiError> = Ok(0x1b4);
    assert_eq!(forward(ok), Ok(0x1b4));
    let err: Result<u64, EthApiError> =
        Err(EthApiError::Backend { code: -32000, message: "execution reverted".to_string() });
    assert_eq!(
        forward(err),
        Err(EthApiError::Backend { code: -32000, message: "execution reverted".to_string() })
    );
}
