use vstd::prelude::*;

verus! {

/// The lower-case hexadecimal digit for a value below sixteen.
pub open spec fn hex_digit(n: int) -> char {
    "0123456789abcdef"@[n]
}

/// Two lower-case hexadecimal digits per byte, most significant first.
pub open spec fn hex_text(b: Seq<u8>) -> Seq<char>
    decreases b.len(),
{
    if b.len() == 0 {
        Seq::empty()
    } else {
        hex_text(b.drop_last()) + seq![hex_digit(b.last() as int / 16), hex_digit(b.last() as int % 16)]
    }
}

/// The value of a hexadecimal digit of either case, or `None`.
pub open spec fn hex_value(c: char) -> Option<int> {
    if '0' <= c && c <= '9' {
        Some(c as int - '0' as int)
    } else if 'a' <= c && c <= 'f' {
        Some(c as int - 'a' as int + 10)
    } else if 'A' <= c && c <= 'F' {
        Some(c as int - 'A' as int + 10)
    } else {
        None
    }
}

/// The bytes that a hexadecimal string of either case stands for; `None` where its
/// length is odd or a character is no hexadecimal digit.
pub open spec fn hex_decoded(s: Seq<char>) -> Option<Seq<u8>>
    decreases s.len(),
{
    if s.len() == 0 {
        Some(Seq::empty())
    } else if s.len() < 2 {
        None
    } else {
        let hi = hex_value(s[s.len() - 2]);
        let lo = hex_value(s[s.len() - 1]);
        match (hex_decoded(s.subrange(0, s.len() - 2)), hi, lo) {
            (Some(prefix), Some(h), Some(l)) => Some(prefix.push((h * 16 + l) as u8)),
            _ => None,
        }
    }
}

proof fn lemma_hex_digit_value(n: int)
    requires
        0 <= n < 16,
    ensures
        hex_value(hex_digit(n)) == Some(n),
{
    reveal_strlit("0123456789abcdef");
    assert("0123456789abcdef"@.len() == 16);
    if n < 10 {
        assert(hex_digit(n) as int == '0' as int + n) by {
            reveal_strlit("0123456789abcdef");
        }
    } else {
        assert(hex_digit(n) as int == 'a' as int + n - 10) by {
            reveal_strlit("0123456789abcdef");
        }
    }
}

/// Lower-case hexadecimal text decodes back to the bytes it was written from.
pub proof fn lemma_hex_round_trip(b: Seq<u8>)
    ensures
        hex_decoded(hex_text(b)) == Some(b),
    decreases b.len(),
{
    if b.len() > 0 {
        let init = b.drop_last();
        let s = hex_text(b);
        lemma_hex_round_trip(init);
        lemma_hex_digit_value(b.last() as int / 16);
        lemma_hex_digit_value(b.last() as int % 16);
        assert(s.subrange(0, s.len() - 2) =~= hex_text(init));
        assert(init.push(((b.last() as int / 16) * 16 + b.last() as int % 16) as u8) =~= b);
    }
}

/// Relies on hex::encode: lower-case digits, two for each byte.
#[verifier::external_body]
pub(crate) fn hex_encode(b: &[u8]) -> (r: String)
    ensures
        r@ == hex_text(b@),
{
    hex::encode(b)
}

/// Relies on hex::decode: accepts digits of either case, fails on an odd length or
/// any other character.
#[verifier::external_body]
pub(crate) fn hex_decode(s: &str) -> (r: Option<Vec<u8>>)
    ensures
        match r {
            Some(b) => hex_decoded(s@) == Some(b@),
            None => hex_decoded(s@) is None,
        },
{
    hex::decode(s).ok()
}

/// Relies on cosmwasm_std::HexBinary::to_hex: lower-case digits, two for each byte.
#[verifier::external_body]
pub(crate) fn hex_binary_text(b: &[u8]) -> (r: String)
    ensures
        r@ == hex_text(b@),
{
    cosmwasm_std::HexBinary::from(b).to_hex()
}

} // verus!
