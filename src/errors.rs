//! The façade's error model.
use vstd::prelude::*;

verus! {

/// Why a JSON-RPC method did not produce a result.
#[derive(Clone, Debug, PartialEq, Eq)]
pub enum EthApiError {
    /// The method is part of the protocol but this backend cannot serve it;
    /// carries the method's canonical name.
    MethodNotSupported(String),
    /// A failure reported by a delegated capability, with its classification
    /// code and message.
    Backend { code: i64, message: String },
}

} // verus!
