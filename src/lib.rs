//! Ethereum JSON-RPC façade over a non-Ethereum backend: the per-method
//! dispatch policy, the stub answers, and the mempool reporting adapter.
pub mod dispatch;
pub mod errors;
pub mod pool;
pub mod rpc;
pub mod types;
