use std::cell::RefCell;

use hyperlane_cosmos::address::AddressCodec;
use hyperlane_cosmos::error::ChainError;
use hyperlane_cosmos::message::HyperlaneMessage;
use hyperlane_cosmos::provider::{ConnectionConf, ContractLocator, HyperlaneDomain, WasmProvider};
use hyperlane_cosmos::receipt::{TxOutcome, TxReceipt};
use hyperlane_cosmos::routing_ism::CosmosRoutingIsm;
use hyperlane_cosmos::validator_announce::{CosmosValidatorAnnounce, SignedAnnouncement};

struct MockProvider {
    answer: Result<Vec<u8>, String>,
    receipt: Result<TxReceipt, String>,
    sent: RefCell<Vec<(String, Option<u64>)>>,
}

impl MockProvider {
    fn answering(text: &str) -> MockProvider {
        MockProvider {
            answer: Ok(text.as_bytes().to_vec()),
            receipt: Err("no transactions".to_string()),
            sent: RefCell::new(vec![]),
        }
    }

    fn with_receipt(receipt: TxReceipt) -> MockProvider {
        MockProvider {
            answer: Err("no queries".to_string()),
            receipt: Ok(receipt),
            sent: RefCell::new(vec![]),
        }
    }
}

impl WasmProvider for MockProvider {
    fn wasm_query(&self, payload: &str) -> Result<Vec<u8>, String> {
        self.sent.borrow_mut().push((payload.to_string(), None));
        self.answer.clone()
    }

    fn wasm_send(&self, payload: &str, gas_limit: Option<u64>) -> Result<TxReceipt, String> {
        self.sent.borrow_mut().push((payload.to_string(), gas_limit));
        self.receipt.clone()
    }
}

fn conf(prefix: &str) -> ConnectionConf {
    ConnectionConf { chain_id: "juno-1".to_string(), bech32_prefix: prefix.to_string() }
}

fn locator() -> ContractLocator {
    ContractLocator {
        domain: HyperlaneDomain { id: 4865, name: "juno".to_string() },
        address: [0x42; 32],
    }
}

fn message() -> HyperlaneMessage {
    HyperlaneMessage {
        version: 3,
        nonce: 7,
        origin: 1,
        sender: [1; 32],
        destination: 4865,
        recipient: [2; 32],
        body: vec![0xca, 0xfe],
    }
}

fn ism(p: MockProvider) -> CosmosRoutingIsm<MockProvider> {
    CosmosRoutingIsm::new(&conf("juno"), locator(), p).unwrap()
}

fn va(p: MockProvider) -> CosmosValidatorAnnounce<MockProvider> {
    CosmosValidatorAnnounce::new(conf("juno"), locator(), p).unwrap()
}

fn announcement() -> SignedAnnouncement {
    SignedAnnouncement {
        validator: [0xaa; 20],
        storage_location: "s3://signatures/juno".to_string(),
        signature: vec![0x01; 65],
    }
}

fn full_receipt() -> TxReceipt {
    TxReceipt {
        txhash: Some("AB".repeat(32)),
        code: Some(0),
        gas_used: Some(123456),
        height: Some(99),
    }
}

#[test]
fn route_resolves_the_encoded_module() {
    let x = [0x5c; 32];
    let addr = AddressCodec::new("juno").unwrap().encode(&x).unwrap();
    let r = ism(MockProvider::answering(&format!("{{\"ism\":\"{}\"}}", addr)));
    assert_eq!(r.route(&message()), Ok(x));
    let sent = r.provider().sent.borrow();
    assert_eq!(sent.len(), 1);
    let raw_hex: String = message().to_raw().iter().map(|b| format!("{:02x}", b)).collect();
    assert_eq!(sent[0].0, format!("{{\"routing_ism\":{{\"route\":{{\"message\":\"{}\"}}}}}}", raw_hex));
}

#[test]
fn route_resolves_a_20_byte_module_address() {
    let r = ism(MockProvider::answering("{\"ism\":\"juno1cma4czt2jnydvrvz3lrc9jvcmhpjxtds95s3c6\"}"));
    let id = r.route(&message()).unwrap();
    assert_eq!(&id[..12], &[0u8; 12]);
    assert_eq!(id[12], 198);
}

#[test]
fn route_passes_provider_errors_on() {
    let p = MockProvider {
        answer: Err("unreachable".to_string()),
        receipt: Err(String::new()),
        sent: RefCell::new(vec![]),
    };
    assert_eq!(ism(p).route(&message()), Err(ChainError::QueryFailed("unreachable".to_string())));
}

#[test]
fn route_rejects_an_answer_of_another_shape() {
    let r = ism(MockProvider::answering("{\"module\":\"juno1cma4czt2jnydvrvz3lrc9jvcmhpjxtds95s3c6\"}"));
    assert_eq!(r.route(&message()), Err(ChainError::ResponseDecodeError));
    let r = ism(MockProvider::answering("not json"));
    assert_eq!(r.route(&message()), Err(ChainError::ResponseDecodeError));
}

#[test]
fn route_rejects_a_malformed_module_address() {
    let r = ism(MockProvider::answering("{\"ism\":\"juno1cma4czt2jnydvrvz3lrc9jvcmhpjxtds95s3c7\"}"));
    assert_eq!(r.route(&message()), Err(ChainError::MalformedAddress));
}

#[test]
fn adapters_keep_their_locator() {
    let r = ism(MockProvider::answering(""));
    assert_eq!(r.address(), [0x42; 32]);
    assert_eq!(r.domain().id, 4865);
    let v = va(MockProvider::answering(""));
    assert_eq!(v.address(), [0x42; 32]);
    assert_eq!(v.domain().name, "juno");
}

#[test]
fn adapters_refuse_an_unusable_prefix() {
    let r = CosmosRoutingIsm::new(&conf("JUNO"), locator(), MockProvider::answering(""));
    assert!(matches!(r, Err(ChainError::ProviderConstructionError)));
    let v = CosmosValidatorAnnounce::new(conf(""), locator(), MockProvider::answering(""));
    assert!(matches!(v, Err(ChainError::ProviderConstructionError)));
}

#[test]
fn locations_are_aligned_to_the_validators_asked_for() {
    let a = [0x0a; 32];
    let b = [0x0b; 32];
    let key_b = AddressCodec::new("juno").unwrap().encode(&b).unwrap();
    let answer = format!(
        "{{\"storage_locations\":[[\"{}\",[\"s3://b/1\",\"file:///b\"]]]}}",
        key_b
    );
    let v = va(MockProvider::answering(&answer));
    let r = v.get_announced_storage_locations(&[a, b]).unwrap();
    assert_eq!(
        r,
        vec![vec![], vec!["s3://b/1".to_string(), "file:///b".to_string()]]
    );
    let sent = v.provider().sent.borrow();
    assert_eq!(
        sent[0].0,
        format!(
            "{{\"get_announce_storage_locations\":{{\"validators\":[\"{}\",\"{}\"]}}}}",
            "0a".repeat(32),
            "0b".repeat(32)
        )
    );
}

#[test]
fn locations_come_back_in_the_order_asked_for() {
    let codec = AddressCodec::new("juno").unwrap();
    let a = [0x0a; 32];
    let b = [0x0b; 32];
    let answer = format!(
        "{{\"storage_locations\":[[\"{}\",[\"b\"]],[\"{}\",[\"a\"]]]}}",
        codec.encode(&b).unwrap(),
        codec.encode(&a).unwrap()
    );
    let v = va(MockProvider::answering(&answer));
    let r = v.get_announced_storage_locations(&[a, b]).unwrap();
    assert_eq!(r, vec![vec!["a".to_string()], vec!["b".to_string()]]);
}

#[test]
fn locations_pass_provider_errors_on() {
    let p = MockProvider {
        answer: Err("timeout".to_string()),
        receipt: Err(String::new()),
        sent: RefCell::new(vec![]),
    };
    let r = va(p).get_announced_storage_locations(&[[1; 32]]);
    assert_eq!(r, Err(ChainError::QueryFailed("timeout".to_string())));
}

#[test]
fn announce_forwards_an_unchecked_signature() {
    let v = va(MockProvider::with_receipt(full_receipt()));
    let mut a = announcement();
    a.signature = vec![0; 65];
    assert!(v.announce(a, None).is_ok());
    let sent = v.provider().sent.borrow();
    assert_eq!(sent.len(), 1);
    assert!(sent[0].0.contains(&format!("\"signature\":\"{}\"", "00".repeat(65))));
}

#[test]
fn locations_reject_an_answer_of_another_shape() {
    let v = va(MockProvider::answering("{\"locations\":[]}"));
    assert_eq!(
        v.get_announced_storage_locations(&[[1; 32]]),
        Err(ChainError::ResponseDecodeError)
    );
}

#[test]
fn announce_reports_the_receipt() {
    let v = va(MockProvider::with_receipt(full_receipt()));
    let out = v.announce(announcement(), Some(500_000)).unwrap();
    assert_eq!(
        out,
        TxOutcome { transaction_id: [0xab; 32], executed: true, gas_used: 123456, height: 99 }
    );
    let sent = v.provider().sent.borrow();
    assert_eq!(sent[0].1, Some(500_000));
    assert_eq!(
        sent[0].0,
        format!(
            "{{\"announce\":{{\"validator\":\"{}\",\"storage_location\":\"s3://signatures/juno\",\"signature\":\"{}\"}}}}",
            "aa".repeat(20),
            "01".repeat(65)
        )
    );
}

#[test]
fn announce_reports_a_failed_transaction() {
    let mut receipt = full_receipt();
    receipt.code = Some(5);
    let out = va(MockProvider::with_receipt(receipt)).announce(announcement(), None).unwrap();
    assert!(!out.executed);
}

#[test]
fn announce_fails_on_a_receipt_without_result_code() {
    let mut receipt = full_receipt();
    receipt.code = None;
    let r = va(MockProvider::with_receipt(receipt)).announce(announcement(), None);
    assert_eq!(r, Err(ChainError::ReceiptDecodeError));
}

#[test]
fn announce_fails_on_a_receipt_with_a_bad_hash() {
    let mut receipt = full_receipt();
    receipt.txhash = Some("abcd".to_string());
    let r = va(MockProvider::with_receipt(receipt)).announce(announcement(), None);
    assert_eq!(r, Err(ChainError::ReceiptDecodeError));
    let mut receipt = full_receipt();
    receipt.txhash = Some("zz".repeat(32));
    let r = va(MockProvider::with_receipt(receipt)).announce(announcement(), None);
    assert_eq!(r, Err(ChainError::ReceiptDecodeError));
}

#[test]
fn announce_fails_on_a_receipt_with_a_negative_count() {
    let mut receipt = full_receipt();
    receipt.gas_used = Some(-1);
    let r = va(MockProvider::with_receipt(receipt)).announce(announcement(), None);
    assert_eq!(r, Err(ChainError::ReceiptDecodeError));
}

#[test]
fn announce_passes_provider_errors_on() {
    let p = MockProvider {
        answer: Err(String::new()),
        receipt: Err("out of gas".to_string()),
        sent: RefCell::new(vec![]),
    };
    let r = va(p).announce(announcement(), None);
    assert_eq!(r, Err(ChainError::QueryFailed("out of gas".to_string())));
}

#[test]
fn receipt_hash_may_be_upper_or_lower_case() {
    let mut receipt = full_receipt();
    receipt.txhash = Some("0A".repeat(16) + &"0b".repeat(16));
    let out = TxOutcome::try_from_tx_response(&receipt).unwrap();
    assert_eq!(out.transaction_id[0], 0x0a);
    assert_eq!(out.transaction_id[31], 0x0b);
}

#[test]
fn announce_tokens_needed_is_always_zero() {
    let v = va(MockProvider::answering(""));
    assert_eq!(v.announce_tokens_needed(announcement()), Some(0));
    let empty = SignedAnnouncement { validator: [0; 20], storage_location: String::new(), signature: vec![] };
    assert_eq!(v.announce_tokens_needed(empty), Some(0));
}
