use hyperlane_cosmos::address::AddressCodec;
use hyperlane_cosmos::error::ChainError;

fn seq_id() -> [u8; 32] {
    let mut id = [0u8; 32];
    for (i, b) in id.iter_mut().enumerate() {
        *b = i as u8;
    }
    id
}

fn juno() -> AddressCodec {
    AddressCodec::new("juno").unwrap()
}

#[test]
fn encode_writes_bech32_of_all_32_bytes() {
    let s = juno().encode(&seq_id()).unwrap();
    assert_eq!(s, "juno1qqqsyqcyq5rqwzqfpg9scrgwpugpzysnzs23v9ccrydpk8qarc0s9c0m82");
}

#[test]
fn encode_uses_the_chain_prefix() {
    let codec = AddressCodec::new("neutron").unwrap();
    let s = codec.encode(&[0xab; 32]).unwrap();
    assert_eq!(s, "neutron14w46h2at4w46h2at4w46h2at4w46h2at4w46h2at4w46h2at4w4s50577a");
}

#[test]
fn decode_of_encode_gives_the_identifier_back() {
    let codec = juno();
    for id in [[0u8; 32], [0xff; 32], seq_id(), [7u8; 32]] {
        let s = codec.encode(&id).unwrap();
        assert_eq!(codec.decode(&s), Ok(id));
    }
}

#[test]
fn decode_pads_a_20_byte_account_on_the_left() {
    let id = juno().decode("juno1cma4czt2jnydvrvz3lrc9jvcmhpjxtds95s3c6").unwrap();
    let mut expected = [0u8; 32];
    expected[12..].copy_from_slice(&[
        198, 251, 92, 9, 106, 148, 200, 214, 13, 130, 143, 199, 130, 201, 152, 221, 195, 35, 45, 176,
    ]);
    assert_eq!(id, expected);
}

#[test]
fn decode_accepts_the_upper_case_form() {
    let id = juno().decode("JUNO1CMA4CZT2JNYDVRVZ3LRC9JVCMHPJXTDS95S3C6").unwrap();
    assert_eq!(id[0], 0);
    assert_eq!(id[12], 198);
    assert_eq!(id[31], 176);
}

#[test]
fn decode_rejects_a_wrong_prefix() {
    let r = juno().decode("osmo1qqqsyqcyq5rqwzqfpg9scrgwpugpzysnzs23v9ccrydpk8qarc0snqss8g");
    assert_eq!(r, Err(ChainError::MalformedAddress));
}

#[test]
fn decode_rejects_a_bad_checksum() {
    let r = juno().decode("juno1qqqsyqcyq5rqwzqfpg9scrgwpugpzysnzs23v9ccrydpk8qarc0s9c0m83");
    assert_eq!(r, Err(ChainError::MalformedAddress));
    let r = juno().decode("juno1cma4czt2jnydvrvz3lrc9jvcmhpjxtds95s3c7");
    assert_eq!(r, Err(ChainError::MalformedAddress));
}

#[test]
fn decode_rejects_more_than_32_bytes() {
    let r = juno().decode(
        "juno1qqqsyqcyq5rqwzqfpg9scrgwpugpzysnzs23v9ccrydpk8qarc0jqgfzyvjz2f38szgt06",
    );
    assert_eq!(r, Err(ChainError::MalformedAddress));
}

#[test]
fn decode_rejects_text_that_is_no_address() {
    let codec = juno();
    for s in ["", "juno", "juno1", "not an address", "0x0102030405", "juno1!!!!!!!!"] {
        assert_eq!(codec.decode(s), Err(ChainError::MalformedAddress));
    }
}

#[test]
fn codec_rejects_unusable_prefixes() {
    for p in ["", "Juno", "ju-no", "juno "] {
        assert!(matches!(AddressCodec::new(p), Err(ChainError::ProviderConstructionError)));
    }
    assert_eq!(AddressCodec::new("cosmos2").unwrap().prefix(), "cosmos2");
}
