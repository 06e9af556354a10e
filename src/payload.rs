use vstd::prelude::*;

use crate::hex_text::{hex_binary_text, hex_encode, hex_text};

verus! {

/// What `serde_json::to_string` gives for a string: its quoted, escaped JSON literal.
pub uninterp spec fn json_string_literal(s: Seq<char>) -> Seq<char>;

/// Relies on `serde_json::to_string` on a `&str`: the quoted, escaped JSON literal.
/// Writing a string into a `Vec<u8>` never fails there.
#[verifier::external_body]
fn json_string(s: &str) -> (r: String)
    ensures
        r@ == json_string_literal(s@),
{
    serde_json::to_string(s).unwrap()
}

/// The routing query for a message given in canonical bytes.
pub open spec fn route_query_text(raw: Seq<u8>) -> Seq<char> {
    "{\"routing_ism\":{\"route\":{\"message\":\""@ + hex_text(raw) + "\"}}}"@
}

/// The hexadecimal texts of the items, each quoted, separated by commas.
pub open spec fn quoted_hex_list(items: Seq<[u8; 32]>) -> Seq<char>
    decreases items.len(),
{
    if items.len() == 0 {
        Seq::empty()
    } else if items.len() == 1 {
        "\""@ + hex_text(items[0]@) + "\""@
    } else {
        quoted_hex_list(items.drop_last()) + ",\""@ + hex_text(items.last()@) + "\""@
    }
}

/// The query for the storage locations of the validators.
pub open spec fn storage_locations_query_text(validators: Seq<[u8; 32]>) -> Seq<char> {
    "{\"get_announce_storage_locations\":{\"validators\":["@ + quoted_hex_list(validators)
        + "]}}"@
}

/// The write payload that announces a storage location for a validator.
pub open spec fn announce_text(validator: Seq<u8>, location: Seq<char>, signature: Seq<u8>) -> Seq<
    char,
> {
    "{\"announce\":{\"validator\":\""@ + hex_text(validator) + "\",\"storage_location\":"@
        + json_string_literal(location) + ",\"signature\":\""@ + hex_text(signature) + "\"}}"@
}

/// The routing query for a message in canonical bytes.
pub fn route_query(raw: &[u8]) -> (r: String)
    ensures
        r@ == route_query_text(raw@),
{
    let mut s = String::from_str("{\"routing_ism\":{\"route\":{\"message\":\"");
    let hex = hex_binary_text(raw);
    s.append(hex.as_str());
    s.append("\"}}}");
    s
}

/// The query for the storage locations of the validators, each sent as the
/// hexadecimal text of its 32 bytes.
pub fn storage_locations_query(validators: &[[u8; 32]]) -> (r: String)
    ensures
        r@ == storage_locations_query_text(validators@),
{
    let mut list = String::new();
    let mut i: usize = 0;
    while i < validators.len()
        invariant
            0 <= i <= validators@.len(),
            list@ == quoted_hex_list(validators@.subrange(0, i as int)),
        decreases validators.len() - i,
    {
        let hex = hex_binary_text(validators[i].as_slice());
        proof {
            let next = validators@.subrange(0, i + 1);
            assert(next.drop_last() =~= validators@.subrange(0, i as int));
        }
        if i == 0 {
            list.append("\"");
        } else {
            list.append(",\"");
        }
        list.append(hex.as_str());
        list.append("\"");
        i = i + 1;
    }
    proof {
        assert(validators@.subrange(0, validators@.len() as int) =~= validators@);
    }
    let mut s = String::from_str("{\"get_announce_storage_locations\":{\"validators\":[");
    s.append(list.as_str());
    s.append("]}}");
    s
}

/// The write payload that announces `location` for `validator`, signed with
/// `signature`. The signature is sent as it is given, never checked.
pub fn announce_payload(validator: &[u8; 20], location: &str, signature: &[u8]) -> (r: String)
    ensures
        r@ == announce_text(validator@, location@, signature@),
{
    let literal = json_string(location);
    let mut s = String::from_str("{\"announce\":{\"validator\":\"");
    let v = hex_encode(validator.as_slice());
    s.append(v.as_str());
    s.append("\",\"storage_location\":");
    s.append(literal.as_str());
    s.append(",\"signature\":\"");
    let sig = hex_encode(signature);
    s.append(sig.as_str());
    s.append("\"}}");
    s
}

} // verus!
