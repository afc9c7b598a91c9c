//! The façade's own answers: the methods that need no capability.
use vstd::prelude::*;

use crate::dispatch::{fails_unsupported, unsupported, EthMethod};
use crate::errors::EthApiError;
use crate::types::{Address, BlockId, BlockNumberOrTag, H256, H64, U256};

verus! {

/// The Ethereum JSON-RPC module over a read capability `P` and an execution
/// capability `C`. It holds no state of its own.
#[derive(Clone, Debug)]
pub struct KakarotEthRpc<P, C> {
    pub eth_provider: P,
    pub kakarot_client: C,
}

impl<P, C> KakarotEthRpc<P, C> {
    pub fn new(eth_provider: P, kakarot_client: C) -> (r: Self)
        ensures
            r.eth_provider == eth_provider,
            r.kakarot_client == kakarot_client,
    {
        KakarotEthRpc { eth_provider, kakarot_client }
    }

    /// No managed accounts: always an empty list.
    pub fn accounts(&self) -> (r: Result<Vec<Address>, EthApiError>)
        ensures
            match r {
                Ok(v) => v@.len() == 0,
                Err(_) => false,
            },
    {
        Ok(Vec::new())
    }

    /// This chain produces no uncles: always zero.
    pub fn block_uncles_count_by_block_hash(&self, _hash: H256) -> (r: Result<U256, EthApiError>)
        ensures
            match r {
                Ok(c) => c.value() == 0,
                Err(_) => false,
            },
    {
        Ok(U256::zero())
    }

    /// This chain produces no uncles: always zero.
    pub fn block_uncles_count_by_block_number(&self, _number: BlockNumberOrTag) -> (r: Result<U256, EthApiError>)
        ensures
            match r {
                Ok(c) => c.value() == 0,
                Err(_) => false,
            },
    {
        Ok(U256::zero())
    }

    /// This chain produces no uncles: always no block.
    pub fn uncle_by_block_hash_and_index<B>(&self, _hash: H256, _index: u64) -> (r: Result<Option<B>, EthApiError>)
        ensures
            r == Ok::<Option<B>, EthApiError>(None),
    {
        Ok(None)
    }

    /// This chain produces no uncles: always no block.
    pub fn uncle_by_block_number_and_index<B>(&self, _number: BlockNumberOrTag, _index: u64) -> (r: Result<Option<B>, EthApiError>)
        ensures
            r == Ok::<Option<B>, EthApiError>(None),
    {
        Ok(None)
    }

    /// Not supported by this backend.
    pub fn coinbase(&self) -> (r: Result<Address, EthApiError>)
        ensures
            fails_unsupported(r, EthMethod::Coinbase),
    {
        unsupported(EthMethod::Coinbase)
    }

    /// Not supported by this backend.
    pub fn mining(&self) -> (r: Result<bool, EthApiError>)
        ensures
            fails_unsupported(r, EthMethod::Mining),
    {
        unsupported(EthMethod::Mining)
    }

    /// Not supported by this backend.
    pub fn hashrate(&self) -> (r: Result<U256, EthApiError>)
        ensures
            fails_unsupported(r, EthMethod::Hashrate),
    {
        unsupported(EthMethod::Hashrate)
    }

    /// Not supported by this backend.
    pub fn get_work<W>(&self) -> (r: Result<W, EthApiError>)
        ensures
            fails_unsupported(r, EthMethod::GetWork),
    {
        unsupported(EthMethod::GetWork)
    }

    /// Not supported by this backend.
    pub fn submit_hashrate(&self, _hashrate: U256, _id: H256) -> (r: Result<bool, EthApiError>)
        ensures
            fails_unsupported(r, EthMethod::SubmitHashrate),
    {
        unsupported(EthMethod::SubmitHashrate)
    }

    /// Not supported by this backend.
    pub fn submit_work(&self, _nonce: H64, _pow_hash: H256, _mix_digest: H256) -> (r: Result<bool, EthApiError>)
        ensures
            fails_unsupported(r, EthMethod::SubmitWork),
    {
        unsupported(EthMethod::SubmitWork)
    }

    /// Not supported by this backend.
    pub fn send_transaction<R>(&self, _request: R) -> (r: Result<H256, EthApiError>)
        ensures
            fails_unsupported(r, EthMethod::SendTransaction),
    {
        unsupported(EthMethod::SendTransaction)
    }

    /// Not supported by this backend.
    pub fn sign(&self, _address: Address, _message: Vec<u8>) -> (r: Result<Vec<u8>, EthApiError>)
        ensures
            fails_unsupported(r, EthMethod::Sign),
    {
        unsupported(EthMethod::Sign)
    }

    /// Not supported by this backend.
    pub fn sign_transaction<R>(&self, _transaction: R) -> (r: Result<Vec<u8>, EthApiError>)
        ensures
            fails_unsupported(r, EthMethod::SignTransaction),
    {
        unsupported(EthMethod::SignTransaction)
    }

    /// Not supported by this backend.
    pub fn sign_typed_data<D>(&self, _address: Address, _data: D) -> (r: Result<Vec<u8>, EthApiError>)
        ensures
            fails_unsupported(r, EthMethod::SignTypedData),
    {
        unsupported(EthMethod::SignTypedData)
    }

    /// Not supported by this backend.
    pub fn get_proof<Pr>(&self, _address: Address, _keys: Vec<H256>, _block_id: Option<BlockId>) -> (r: Result<Pr, EthApiError>)
        ensures
            fails_unsupported(r, EthMethod::GetProof),
    {
        unsupported(EthMethod::GetProof)
    }

    /// Not supported by this backend.
    pub fn new_filter<F>(&self, _filter: F) -> (r: Result<u64, EthApiError>)
        ensures
            fails_unsupported(r, EthMethod::NewFilter),
    {
        unsupported(EthMethod::NewFilter)
    }

    /// Not supported by this backend.
    pub fn new_block_filter(&self) -> (r: Result<u64, EthApiError>)
        ensures
            fails_unsupported(r, EthMethod::NewBlockFilter),
    {
        unsupported(EthMethod::NewBlockFilter)
    }

    /// Not supported by this backend.
    pub fn new_pending_transaction_filter(&self) -> (r: Result<u64, EthApiError>)
        ensures
            fails_unsupported(r, EthMethod::NewPendingTransactionFilter),
    {
        unsupported(EthMethod::NewPendingTransactionFilter)
    }

    /// Not supported by this backend.
    pub fn uninstall_filter(&self, _id: u64) -> (r: Result<bool, EthApiError>)
        ensures
            fails_unsupported(r, EthMethod::UninstallFilter),
    {
        unsupported(EthMethod::UninstallFilter)
    }

    /// Not supported by this backend.
    pub fn get_filter_changes<Ch>(&self, _id: u64) -> (r: Result<Ch, EthApiError>)
        ensures
            fails_unsupported(r, EthMethod::GetFilterChanges),
    {
        unsupported(EthMethod::GetFilterChanges)
    }

    /// Not supported by this backend.
    pub fn get_filter_logs<Ch>(&self, _id: u64) -> (r: Result<Ch, EthApiError>)
        ensures
            fails_unsupported(r, EthMethod::GetFilterLogs),
    {
        unsupported(EthMethod::GetFilterLogs)
    }

    /// Not supported by this backend.
    pub fn create_access_list<R, A>(&self, _request: R, _block_id: Option<BlockId>) -> (r: Result<A, EthApiError>)
        ensures
            fails_unsupported(r, EthMethod::CreateAccessList),
    {
        unsupported(EthMethod::CreateAccessList)
    }
}

} // verus!
