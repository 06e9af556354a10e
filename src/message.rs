use vstd::prelude::*;

verus! {

/// A message of the messaging protocol, independent of any chain.
#[derive(Debug, Clone, PartialEq, Eq)]
pub struct HyperlaneMessage {
    pub version: u8,
    pub nonce: u32,
    pub origin: u32,
    pub sender: [u8; 32],
    pub destination: u32,
    pub recipient: [u8; 32],
    pub body: Vec<u8>,
}

/// The four bytes of `n`, most significant first.
pub open spec fn be_bytes(n: u32) -> Seq<u8> {
    seq![
        (n / 16777216) as u8,
        ((n / 65536) % 256) as u8,
        ((n / 256) % 256) as u8,
        (n % 256) as u8,
    ]
}

/// The canonical bytes of a message: version, nonce, origin, sender, destination,
/// recipient and body, with integers big-endian.
pub open spec fn raw_message(m: HyperlaneMessage) -> Seq<u8> {
    seq![m.version] + be_bytes(m.nonce) + be_bytes(m.origin) + m.sender@ + be_bytes(
        m.destination,
    ) + m.recipient@ + m.body@
}

fn push_be_bytes(out: &mut Vec<u8>, n: u32)
    ensures
        final(out)@ == old(out)@ + be_bytes(n),
{
    out.push((n / 16777216) as u8);
    out.push(((n / 65536) % 256) as u8);
    out.push(((n / 256) % 256) as u8);
    out.push((n % 256) as u8);
    proof {
        assert(out@ =~= old(out)@ + be_bytes(n));
    }
}

impl HyperlaneMessage {
    /// The message in its canonical byte form.
    pub fn to_raw(&self) -> (r: Vec<u8>)
        ensures
            r@ == raw_message(*self),
    {
        let mut out: Vec<u8> = Vec::new();
        out.push(self.version);
        push_be_bytes(&mut out, self.nonce);
        push_be_bytes(&mut out, self.origin);
        out.extend_from_slice(self.sender.as_slice());
        push_be_bytes(&mut out, self.destination);
        out.extend_from_slice(self.recipient.as_slice());
        out.extend_from_slice(self.body.as_slice());
        proof {
            assert(out@ =~= raw_message(*self));
        }
        out
    }
}

} // verus!
