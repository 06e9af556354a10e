use vstd::prelude::*;

use crate::address::{is_chain_prefix, AddressCodec};
use crate::error::ChainError;
use crate::payload::{
    announce_payload,
    announce_text,
    storage_locations_query,
    storage_locations_query_text,
};
use crate::provider::{ConnectionConf, ContractLocator, HyperlaneDomain, WasmProvider};
use crate::receipt::{reports, TxOutcome, TxReceipt};
use crate::response::{
    locations_in_order,
    parse_storage_locations_response,
    storage_locations_entries,
    storage_locations_in_order,
};

verus! {

/// A validator's announcement of where its signatures can be fetched, with the
/// validator's signature over it. It is passed on as it is, never checked here.
#[derive(Debug, Clone, PartialEq, Eq)]
pub struct SignedAnnouncement {
    /// The validator's 20-byte address.
    pub validator: [u8; 20],
    pub storage_location: String,
    pub signature: Vec<u8>,
}

/// The locations, one list per validator in the order given, that a response given as
/// raw bytes holds, its keys being native addresses of the chain with prefix `prefix`.
pub open spec fn locations_outcome(
    prefix: Seq<char>,
    validators: Seq<[u8; 32]>,
    data: Seq<u8>,
) -> Result<Seq<Seq<Seq<char>>>, ChainError> {
    match storage_locations_entries(data) {
        Some(entries) => Ok(locations_in_order(prefix, validators, entries)),
        None => Err(ChainError::ResponseDecodeError),
    }
}

/// What the provider's whole answer to a storage-location query comes to: its error
/// is passed on as a query failure, and raw bytes are read as `locations_outcome` says.
pub open spec fn locations_answer_outcome(
    prefix: Seq<char>,
    validators: Seq<[u8; 32]>,
    answer: Result<Vec<u8>, String>,
) -> Result<Seq<Seq<Seq<char>>>, ChainError> {
    match answer {
        Ok(data) => locations_outcome(prefix, validators, data@),
        Err(e) => Err(ChainError::QueryFailed(e)),
    }
}

/// `r` is what the provider's whole answer to an announcement comes to: its error
/// passed on as a query failure, or what the receipt reports.
pub open spec fn announce_answer_outcome(
    answer: Result<TxReceipt, String>,
    r: Result<TxOutcome, ChainError>,
) -> bool {
    match answer {
        Ok(receipt) => reports(receipt, r),
        Err(e) => r == Err::<TxOutcome, ChainError>(ChainError::QueryFailed(e)),
    }
}

/// `r` is the exec form of the spec result `s`.
pub open spec fn same_locations(
    r: Result<Vec<Vec<String>>, ChainError>,
    s: Result<Seq<Seq<Seq<char>>>, ChainError>,
) -> bool {
    match s {
        Ok(l) => r matches Ok(v) && v.deep_view() == l,
        Err(e) => r == Err::<Vec<Vec<String>>, ChainError>(e),
    }
}

/// A validator announce contract on a Cosmos chain.
pub struct CosmosValidatorAnnounce<P> {
    domain: HyperlaneDomain,
    address: [u8; 32],
    codec: AddressCodec,
    provider: P,
}

impl<P: WasmProvider> CosmosValidatorAnnounce<P> {
    pub closed spec fn domain_view(&self) -> HyperlaneDomain {
        self.domain
    }

    pub closed spec fn address_view(&self) -> [u8; 32] {
        self.address
    }

    /// The prefix of the chain's addresses.
    pub closed spec fn prefix_view(&self) -> Seq<char> {
        self.codec.prefix_view()
    }

    pub closed spec fn provider_view(&self) -> P {
        self.provider
    }

    pub closed spec fn wf(&self) -> bool {
        self.codec.wf()
    }

    /// A validator announce contract at `locator`, reached through `provider`; fails
    /// where the configured address prefix is unusable.
    pub fn new(conf: ConnectionConf, locator: ContractLocator, provider: P) -> (r: Result<
        Self,
        ChainError,
    >)
        ensures
            r is Ok <==> is_chain_prefix(conf.bech32_prefix@),
            r matches Ok(s) ==> {
                &&& s.wf()
                &&& s.domain_view() == locator.domain
                &&& s.address_view() == locator.address
                &&& s.prefix_view() == conf.bech32_prefix@
                &&& s.provider_view() == provider
            },
            r is Err ==> r == Err::<Self, ChainError>(ChainError::ProviderConstructionError),
    {
        let codec = match AddressCodec::new(conf.bech32_prefix.as_str()) {
            Ok(c) => c,
            Err(e) => return Err(e),
        };
        Ok(
            CosmosValidatorAnnounce {
                domain: locator.domain,
                address: locator.address,
                codec,
                provider,
            },
        )
    }

    /// The contract's address.
    pub fn address(&self) -> (r: [u8; 32])
        ensures
            r == self.address_view(),
    {
        self.address
    }

    /// The chain the contract lives on.
    pub fn domain(&self) -> (r: &HyperlaneDomain)
        ensures
            *r == self.domain_view(),
    {
        &self.domain
    }

    /// The provider the contract is reached through.
    pub fn provider(&self) -> (r: &P)
        ensures
            *r == self.provider_view(),
    {
        &self.provider
    }

    /// The storage locations that a response, given as the raw bytes the provider
    /// handed back, holds for each validator, in the order of `validators`. An entry
    /// belongs to a validator when its key is a native address that decodes to it.
    pub fn locations_from_response(&self, validators: &[[u8; 32]], data: &[u8]) -> (r: Result<
        Vec<Vec<String>>,
        ChainError,
    >)
        ensures
            same_locations(r, locations_outcome(self.prefix_view(), validators@, data@)),
    {
        match parse_storage_locations_response(data) {
            Some(entries) => Ok(storage_locations_in_order(&self.codec, validators, &entries)),
            None => Err(ChainError::ResponseDecodeError),
        }
    }

    /// The storage locations that the provider's whole answer holds; a provider error is
    /// passed on unchanged as a query failure.
    pub fn locations_from_answer(
        &self,
        validators: &[[u8; 32]],
        answer: Result<Vec<u8>, String>,
    ) -> (r: Result<Vec<Vec<String>>, ChainError>)
        ensures
            same_locations(r, locations_answer_outcome(self.prefix_view(), validators@, answer)),
    {
        match answer {
            Ok(data) => self.locations_from_response(validators, data.as_slice()),
            Err(e) => Err(ChainError::QueryFailed(e)),
        }
    }

    /// The storage locations that each validator has announced, one list per
    /// validator, in the order given. One batched read-only query is sent, the
    /// storage-location query of the validators, and the provider's answer to it is
    /// read as `locations_from_answer` says.
    pub fn get_announced_storage_locations(&self, validators: &[[u8; 32]]) -> (r: Result<
        Vec<Vec<String>>,
        ChainError,
    >)
        ensures
            exists|answer: Result<Vec<u8>, String>|
                #[trigger] self.provider_view().query_answer(
                    storage_locations_query_text(validators@),
                    answer,
                ) && same_locations(
                    r,
                    locations_answer_outcome(self.prefix_view(), validators@, answer),
                ),
    {
        let payload = storage_locations_query(validators);
        let answer = self.provider.wasm_query(payload.as_str());
        proof {
            assert(self.provider_view().query_answer(
                storage_locations_query_text(validators@),
                answer,
            ));
        }
        self.locations_from_answer(validators, answer)
    }

    /// What the provider's whole answer to an announcement comes to; a provider error
    /// is passed on unchanged as a query failure.
    pub fn outcome_from_answer(answer: Result<TxReceipt, String>) -> (r: Result<
        TxOutcome,
        ChainError,
    >)
        ensures
            announce_answer_outcome(answer, r),
    {
        match answer {
            Ok(receipt) => TxOutcome::try_from_tx_response(&receipt),
            Err(e) => Err(ChainError::QueryFailed(e)),
        }
    }

    /// Publishes the announcement in one transaction: the announce payload of its
    /// fields, the signature forwarded unchecked, sent with the gas limit given. The
    /// provider's answer comes to what `outcome_from_answer` says; a receipt that lacks
    /// a field is an error.
    pub fn announce(&self, announcement: SignedAnnouncement, tx_gas_limit: Option<u64>) -> (r:
        Result<TxOutcome, ChainError>)
        ensures
            exists|answer: Result<TxReceipt, String>|
                #[trigger] self.provider_view().send_answer(
                    announce_text(
                        announcement.validator@,
                        announcement.storage_location@,
                        announcement.signature@,
                    ),
                    tx_gas_limit,
                    answer,
                ) && announce_answer_outcome(answer, r),
    {
        let payload = announce_payload(
            &announcement.validator,
            announcement.storage_location.as_str(),
            announcement.signature.as_slice(),
        );
        let answer = self.provider.wasm_send(payload.as_str(), tx_gas_limit);
        proof {
            assert(self.provider_view().send_answer(
                announce_text(
                    announcement.validator@,
                    announcement.storage_location@,
                    announcement.signature@,
                ),
                tx_gas_limit,
                answer,
            ));
        }
        Self::outcome_from_answer(answer)
    }

    /// The tokens the validator still needs before it can announce. The balance is
    /// not checked yet: the answer is always that none are needed, and an announce
    /// without enough funds fails at the chain.
    pub fn announce_tokens_needed(&self, announcement: SignedAnnouncement) -> (r: Option<u128>)
        ensures
            r == Some(0u128),
    {
        Some(0u128)
    }
}

} // verus!
