use vstd::prelude::*;

use crate::receipt::TxReceipt;

verus! {

/// The chain a contract lives on.
#[derive(Debug, Clone, PartialEq, Eq)]
pub struct HyperlaneDomain {
    pub id: u32,
    pub name: String,
}

/// A deployed contract: its chain and its 32-byte address.
#[derive(Debug, Clone, PartialEq, Eq)]
pub struct ContractLocator {
    pub domain: HyperlaneDomain,
    pub address: [u8; 32],
}

/// How to reach a chain, and the prefix of its addresses.
#[derive(Debug, Clone, PartialEq, Eq)]
pub struct ConnectionConf {
    pub chain_id: String,
    pub bech32_prefix: String,
}

/// Runs queries and transactions against a smart contract on the chain. Transport,
/// signing and fees are the implementation's concern; so is any retry.
pub trait WasmProvider {
    /// `answer` is what this provider gives back for the read-only query `payload`. A
    /// provider verified against this trait states here what it answers; left as it
    /// is, it records only that `answer` came back for `payload`, and says nothing of
    /// what the answer holds.
    closed spec fn query_answer(&self, payload: Seq<char>, answer: Result<Vec<u8>, String>) -> bool {
        true
    }

    /// `answer` is what this provider gives back for the write `payload`, sent with
    /// `gas_limit`; as `query_answer`, it holds of every answer unless a provider
    /// states more.
    closed spec fn send_answer(
        &self,
        payload: Seq<char>,
        gas_limit: Option<u64>,
        answer: Result<TxReceipt, String>,
    ) -> bool {
        true
    }

    /// Runs a read-only query, a JSON text, against the latest committed state and
    /// hands back the raw answer, or the provider's error.
    fn wasm_query(&self, payload: &str) -> (r: Result<Vec<u8>, String>)
        ensures
            self.query_answer(payload@, r),
    ;

    /// Signs and broadcasts a write, a JSON text, and hands back the chain's receipt,
    /// or the provider's error.
    fn wasm_send(&self, payload: &str, gas_limit: Option<u64>) -> (r: Result<TxReceipt, String>)
        ensures
            self.send_answer(payload@, gas_limit, r),
    ;
}

} // verus!
