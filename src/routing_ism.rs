use vstd::prelude::*;

use crate::address::{
    decoded_identifier,
    is_chain_prefix,
    is_encoding_of,
    lemma_decode_of_encode,
    same_result,
    AddressCodec,
};
use crate::error::ChainError;
use crate::message::{raw_message, HyperlaneMessage};
use crate::payload::{route_query, route_query_text};
use crate::provider::{ConnectionConf, ContractLocator, HyperlaneDomain, WasmProvider};
use crate::response::{parse_route_response, route_response_ism};

verus! {

/// What a routing answer given as raw bytes resolves to for the chain with prefix
/// `prefix`: the identifier of the module it names.
pub open spec fn route_outcome(prefix: Seq<char>, data: Seq<u8>) -> Result<Seq<u8>, ChainError> {
    match route_response_ism(data) {
        Some(ism) => decoded_identifier(prefix, ism),
        None => Err(ChainError::ResponseDecodeError),
    }
}

/// What the provider's whole answer to a routing query resolves to: its error is
/// passed on as a query failure, and raw bytes resolve as `route_outcome` says.
pub open spec fn route_answer_outcome(prefix: Seq<char>, answer: Result<Vec<u8>, String>) -> Result<
    Seq<u8>,
    ChainError,
> {
    match answer {
        Ok(data) => route_outcome(prefix, data@),
        Err(e) => Err(ChainError::QueryFailed(e)),
    }
}

/// An answer that names the address `encode` writes for an identifier resolves to
/// exactly that identifier.
pub proof fn lemma_route_resolves_encoded(
    c: AddressCodec,
    data: Seq<u8>,
    id: Seq<u8>,
    ism: Seq<char>,
)
    requires
        c.wf(),
        id.len() == 32,
        route_response_ism(data) == Some(ism),
        is_encoding_of(c.prefix_view(), id, ism),
    ensures
        route_outcome(c.prefix_view(), data) == Ok::<Seq<u8>, ChainError>(id),
{
    lemma_decode_of_encode(c, id, ism);
}

/// A routing security module contract on a Cosmos chain.
pub struct CosmosRoutingIsm<P> {
    domain: HyperlaneDomain,
    address: [u8; 32],
    codec: AddressCodec,
    provider: P,
}

impl<P: WasmProvider> CosmosRoutingIsm<P> {
    pub closed spec fn domain_view(&self) -> HyperlaneDomain {
        self.domain
    }

    pub closed spec fn address_view(&self) -> [u8; 32] {
        self.address
    }

    /// The prefix of the chain's addresses.
    pub closed spec fn prefix_view(&self) -> Seq<char> {
        self.codec.prefix_view()
    }

    pub closed spec fn provider_view(&self) -> P {
        self.provider
    }

    pub closed spec fn wf(&self) -> bool {
        self.codec.wf()
    }

    /// A routing module bound to the contract at `locator`, queried through
    /// `provider`; fails where the configured address prefix is unusable.
    pub fn new(conf: &ConnectionConf, locator: ContractLocator, provider: P) -> (r: Result<
        Self,
        ChainError,
    >)
        ensures
            r is Ok <==> is_chain_prefix(conf.bech32_prefix@),
            r matches Ok(s) ==> {
                &&& s.wf()
                &&& s.domain_view() == locator.domain
                &&& s.address_view() == locator.address
                &&& s.prefix_view() == conf.bech32_prefix@
                &&& s.provider_view() == provider
            },
            r is Err ==> r == Err::<Self, ChainError>(ChainError::ProviderConstructionError),
    {
        let codec = match AddressCodec::new(conf.bech32_prefix.as_str()) {
            Ok(c) => c,
            Err(e) => return Err(e),
        };
        Ok(CosmosRoutingIsm { domain: locator.domain, address: locator.address, codec, provider })
    }

    /// The contract's address.
    pub fn address(&self) -> (r: [u8; 32])
        ensures
            r == self.address_view(),
    {
        self.address
    }

    /// The chain the contract lives on.
    pub fn domain(&self) -> (r: &HyperlaneDomain)
        ensures
            *r == self.domain_view(),
    {
        &self.domain
    }

    /// The provider the contract is reached through.
    pub fn provider(&self) -> (r: &P)
        ensures
            *r == self.provider_view(),
    {
        &self.provider
    }

    /// The module that a routing answer, given as the raw bytes the provider handed
    /// back, names: the answer must parse, and its address must be one of this chain.
    pub fn route_from_response(&self, data: &[u8]) -> (r: Result<[u8; 32], ChainError>)
        ensures
            same_result(r, route_outcome(self.prefix_view(), data@)),
    {
        match parse_route_response(data) {
            Some(ism) => self.codec.decode(ism.as_str()),
            None => Err(ChainError::ResponseDecodeError),
        }
    }

    /// The module that the provider's whole answer to a routing query names; a provider
    /// error is passed on unchanged as a query failure.
    pub fn route_from_answer(&self, answer: Result<Vec<u8>, String>) -> (r: Result<
        [u8; 32],
        ChainError,
    >)
        ensures
            same_result(r, route_answer_outcome(self.prefix_view(), answer)),
    {
        match answer {
            Ok(data) => self.route_from_response(data.as_slice()),
            Err(e) => Err(ChainError::QueryFailed(e)),
        }
    }

    /// The module that the contract picks to verify `message`. One read-only query is
    /// sent, the routing query of the message's canonical bytes, and the provider's
    /// answer to it resolves as `route_from_answer` says.
    pub fn route(&self, message: &HyperlaneMessage) -> (r: Result<[u8; 32], ChainError>)
        ensures
            exists|answer: Result<Vec<u8>, String>|
                #[trigger] self.provider_view().query_answer(
                    route_query_text(raw_message(*message)),
                    answer,
                ) && same_result(r, route_answer_outcome(self.prefix_view(), answer)),
    {
        let raw = message.to_raw();
        let payload = route_query(raw.as_slice());
        let answer = self.provider.wasm_query(payload.as_str());
        proof {
            assert(self.provider_view().query_answer(
                route_query_text(raw_message(*message)),
                answer,
            ));
        }
        self.route_from_answer(answer)
    }
}

} // verus!
