use vstd::prelude::*;

use crate::error::ChainError;

verus! {

/// What `cosmrs::AccountId::from_str` yields for a text: its human-readable prefix and
/// the bytes it encodes, or `None` where the text is no valid account id.
pub uninterp spec fn account_id_parts(s: Seq<char>) -> Option<(Seq<char>, Seq<u8>)>;

/// `s` is a native address, with prefix `prefix`, of the bytes `id`.
pub open spec fn is_encoding_of(prefix: Seq<char>, id: Seq<u8>, s: Seq<char>) -> bool {
    account_id_parts(s) == Some((prefix, id))
}

/// A prefix that an account id may carry: lower-case letters and digits only.
pub open spec fn is_account_prefix(p: Seq<char>) -> bool {
    forall|i: int| 0 <= i < p.len() ==> ('a' <= #[trigger] p[i] <= 'z' || '0' <= p[i] <= '9')
}

/// A prefix that can name a chain: one accepted for account ids, and not empty, since
/// an encoded address with an empty prefix does not decode.
pub open spec fn is_chain_prefix(p: Seq<char>) -> bool {
    p.len() > 0 && is_account_prefix(p)
}

/// The 32-byte identifier of an address's bytes: zeros on the left, the bytes on the right.
pub open spec fn left_padded(b: Seq<u8>) -> Seq<u8>
    recommends
        b.len() <= 32,
{
    Seq::new((32 - b.len()) as nat, |i: int| 0u8) + b
}

/// What decoding a native address for the chain with prefix `prefix` gives.
pub open spec fn decoded_identifier(prefix: Seq<char>, s: Seq<char>) -> Result<Seq<u8>, ChainError> {
    match account_id_parts(s) {
        Some((p, b)) => if p == prefix && b.len() <= 32 {
            Ok(left_padded(b))
        } else {
            Err(ChainError::MalformedAddress)
        },
        None => Err(ChainError::MalformedAddress),
    }
}

/// `r` is the exec form of the spec result `s`: the same identifier, or the same error.
pub open spec fn same_result(r: Result<[u8; 32], ChainError>, s: Result<Seq<u8>, ChainError>) -> bool {
    match s {
        Ok(b) => r matches Ok(id) && id@ == b,
        Err(e) => r == Err::<[u8; 32], ChainError>(e),
    }
}

/// Relies on `cosmrs::AccountId::from_str`, with `prefix` and `to_bytes` to read the
/// parsed id out. A parsed id has a lower-case alphanumeric prefix and 1 to 255 bytes.
#[verifier::external_body]
fn parse_account_id(s: &str) -> (r: Option<(String, Vec<u8>)>)
    ensures
        match r {
            Some((p, b)) => account_id_parts(s@) == Some((p@, b@)) && is_account_prefix(p@) && 1
                <= b@.len() <= 255,
            None => account_id_parts(s@) is None,
        },
{
    let id = <cosmrs::AccountId as std::str::FromStr>::from_str(s).ok()?;
    Some((id.prefix().to_string(), id.to_bytes()))
}

/// Relies on `cosmrs::AccountId::new` and its text form: it succeeds exactly on a
/// lower-case alphanumeric prefix and 1 to 255 bytes, and the Bech32 text it writes
/// parses back to the same prefix and bytes where the prefix is not empty.
#[verifier::external_body]
fn new_account_id(prefix: &str, bytes: &[u8]) -> (r: Option<String>)
    ensures
        r is Some <==> (is_account_prefix(prefix@) && 1 <= bytes@.len() <= 255),
        r matches Some(s) ==> (prefix@.len() > 0 ==> account_id_parts(s@) == Some((prefix@, bytes@))),
{
    cosmrs::AccountId::new(prefix, bytes).ok().map(String::from)
}

/// Converts between 32-byte protocol identifiers and the Bech32 addresses of one chain.
pub struct AddressCodec {
    prefix: String,
}

impl AddressCodec {
    pub closed spec fn prefix_view(&self) -> Seq<char> {
        self.prefix@
    }

    /// The codec's prefix names a chain.
    pub closed spec fn wf(&self) -> bool {
        is_chain_prefix(self.prefix@)
    }

    /// A codec for the chain whose addresses carry `prefix`; fails on a prefix that no
    /// account id can carry.
    pub fn new(prefix: &str) -> (r: Result<AddressCodec, ChainError>)
        ensures
            is_chain_prefix(prefix@) <==> r is Ok,
            r matches Ok(c) ==> c.wf() && c.prefix_view() == prefix@,
            r matches Err(e) ==> e == ChainError::ProviderConstructionError,
    {
        let mut i: usize = 0;
        let n = prefix.unicode_len();
        if n == 0 {
            return Err(ChainError::ProviderConstructionError);
        }
        while i < n
            invariant
                n == prefix@.len(),
                0 <= i <= n,
                forall|j: int| 0 <= j < i ==> ('a' <= #[trigger] prefix@[j] <= 'z' || '0' <= prefix@[j] <= '9'),
            decreases n - i,
        {
            let c = prefix.get_char(i);
            if !(('a' <= c && c <= 'z') || ('0' <= c && c <= '9')) {
                return Err(ChainError::ProviderConstructionError);
            }
            i = i + 1;
        }
        Ok(AddressCodec { prefix: prefix.to_string() })
    }

    /// The prefix of this chain's addresses.
    pub fn prefix(&self) -> (r: &str)
        ensures
            r@ == self.prefix_view(),
    {
        self.prefix.as_str()
    }

    /// The native address of a 32-byte identifier; every identifier has one.
    pub fn encode(&self, id: &[u8; 32]) -> (r: Result<String, ChainError>)
        requires
            self.wf(),
        ensures
            r is Ok,
            r matches Ok(s) ==> is_encoding_of(self.prefix_view(), id@, s@),
    {
        match new_account_id(self.prefix.as_str(), id.as_slice()) {
            Some(s) => Ok(s),
            None => Err(ChainError::UnrepresentableIdentifier),
        }
    }

    /// The 32-byte identifier of a native address of this chain. An address of up to
    /// 32 bytes is padded with zeros on the left; any other text fails as malformed.
    pub fn decode(&self, s: &str) -> (r: Result<[u8; 32], ChainError>)
        ensures
            same_result(r, decoded_identifier(self.prefix_view(), s@)),
            r is Err ==> r == Err::<[u8; 32], ChainError>(ChainError::MalformedAddress),
    {
        match parse_account_id(s) {
            None => Err(ChainError::MalformedAddress),
            Some((p, b)) => {
                if !string_eq(&p, &self.prefix) || b.len() > 32 {
                    return Err(ChainError::MalformedAddress);
                }
                let start: usize = 32 - b.len();
                let mut id = [0u8; 32];
                let mut i: usize = 0;
                while i < b.len()
                    invariant
                        start + b@.len() == 32,
                        0 <= i <= b@.len(),
                        forall|j: int| 0 <= j < start ==> id@[j] == 0u8,
                        forall|j: int| 0 <= j < i ==> id@[start + j] == b@[j],
                    decreases b.len() - i,
                {
                    id[start + i] = b[i];
                    i = i + 1;
                }
                proof {
                    assert(id@ =~= left_padded(b@));
                }
                Ok(id)
            },
        }
    }
}

/// Decoding the address that `encode` writes for an identifier gives that identifier
/// back.
pub proof fn lemma_decode_of_encode(c: AddressCodec, id: Seq<u8>, s: Seq<char>)
    requires
        c.wf(),
        id.len() == 32,
        is_encoding_of(c.prefix_view(), id, s),
    ensures
        decoded_identifier(c.prefix_view(), s) == Ok::<Seq<u8>, ChainError>(id),
{
    assert(left_padded(id) =~= id);
}

/// Decoding fails in one way only: the text is no address of this chain.
pub proof fn lemma_decode_fails_as_malformed(prefix: Seq<char>, s: Seq<char>)
    ensures
        decoded_identifier(prefix, s) is Err ==> decoded_identifier(prefix, s) == Err::<
            Seq<u8>,
            ChainError,
        >(ChainError::MalformedAddress),
{
}

fn string_eq(a: &String, b: &String) -> (r: bool)
    ensures
        r <==> a@ == b@,
{
    a.eq(b)
}

} // verus!
