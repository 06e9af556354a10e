use vstd::prelude::*;

use crate::error::ChainError;
use crate::hex_text::{hex_decode, hex_decoded};

verus! {

/// A transaction receipt as the chain reports it; a field the chain left out is `None`.
#[derive(Debug, Clone, PartialEq, Eq)]
pub struct TxReceipt {
    /// The transaction's hash, in hexadecimal.
    pub txhash: Option<String>,
    /// The result code; zero for a transaction that executed.
    pub code: Option<u32>,
    pub gas_used: Option<i64>,
    /// The height of the block that holds the transaction.
    pub height: Option<i64>,
}

/// What a submitted transaction came to.
#[derive(Debug, Clone, Copy, PartialEq, Eq)]
pub struct TxOutcome {
    pub transaction_id: [u8; 32],
    pub executed: bool,
    pub gas_used: u64,
    pub height: u64,
}

/// The receipt holds every field, a 32-byte hash in hexadecimal, and no negative count.
pub open spec fn receipt_complete(r: TxReceipt) -> bool {
    &&& r.txhash matches Some(h) && hex_decoded(h@) matches Some(b) && b.len() == 32
    &&& r.code is Some
    &&& r.gas_used matches Some(g) && g >= 0
    &&& r.height matches Some(h) && h >= 0
}

/// The outcome read from a complete receipt.
pub open spec fn outcome_of(r: TxReceipt, o: TxOutcome) -> bool {
    &&& hex_decoded(r.txhash.unwrap()@) == Some(o.transaction_id@)
    &&& o.executed == (r.code.unwrap() == 0)
    &&& o.gas_used == r.gas_used.unwrap()
    &&& o.height == r.height.unwrap()
}

/// `r` is what the receipt reports: its outcome where it is complete, else the
/// receipt error.
pub open spec fn reports(receipt: TxReceipt, r: Result<TxOutcome, ChainError>) -> bool {
    if receipt_complete(receipt) {
        r matches Ok(o) && outcome_of(receipt, o)
    } else {
        r == Err::<TxOutcome, ChainError>(ChainError::ReceiptDecodeError)
    }
}

impl TxOutcome {
    /// The outcome that a receipt reports. A receipt that lacks a field, or whose hash
    /// is no 32-byte hexadecimal value, or whose counts are negative, is an error:
    /// nothing is filled in for it.
    pub fn try_from_tx_response(receipt: &TxReceipt) -> (r: Result<TxOutcome, ChainError>)
        ensures
            r is Ok <==> receipt_complete(*receipt),
            r matches Ok(o) ==> outcome_of(*receipt, o),
            r is Err ==> r == Err::<TxOutcome, ChainError>(ChainError::ReceiptDecodeError),
            reports(*receipt, r),
    {
        let hash = match &receipt.txhash {
            Some(h) => h,
            None => return Err(ChainError::ReceiptDecodeError),
        };
        let code = match receipt.code {
            Some(c) => c,
            None => return Err(ChainError::ReceiptDecodeError),
        };
        let gas_used = match receipt.gas_used {
            Some(g) => g,
            None => return Err(ChainError::ReceiptDecodeError),
        };
        let height = match receipt.height {
            Some(h) => h,
            None => return Err(ChainError::ReceiptDecodeError),
        };
        let bytes = match hex_decode(hash.as_str()) {
            Some(b) => b,
            None => return Err(ChainError::ReceiptDecodeError),
        };
        if bytes.len() != 32 || gas_used < 0 || height < 0 {
            return Err(ChainError::ReceiptDecodeError);
        }
        let mut id = [0u8; 32];
        let mut i: usize = 0;
        while i < 32
            invariant
                bytes@.len() == 32,
                0 <= i <= 32,
                forall|k: int| 0 <= k < i ==> id@[k] == bytes@[k],
            decreases 32 - i,
        {
            id[i] = bytes[i];
            i = i + 1;
        }
        proof {
            assert(id@ =~= bytes@);
        }
        Ok(TxOutcome { transaction_id: id, executed: code == 0, gas_used: gas_used as u64, height: height as u64 })
    }
}

} // verus!
