//! Reading a transaction from its hexadecimal encoding.

use vstd::prelude::*;
use bitcoin::blockdata::transaction::Transaction as WireTransaction;
use bitcoin::network::serialize::deserialize;
use crate::codec::{deserialize_tx, reads_back, tx_decoding, tx_encoding};
use crate::error::TxError;
use crate::hex::{from_hex, hex_decoding, hex_text, lemma_hex_round_trip};
use crate::tx::{Transaction, TransactionView};

verus! {

/// The text that the `bitcoin` crate's `Debug` gives of the transaction it
/// reads from a byte string, or `None` where it refuses the bytes.
pub uninterp spec fn tx_debug_text(bytes: Seq<u8>) -> Option<Seq<char>>;

/// `bitcoin::network::serialize::deserialize` to a transaction, written
/// out with the crate's `Debug`. The result is named; it is there exactly
/// when the decoder accepts the bytes.
#[verifier::external_body]
fn debug_text(bytes: &[u8]) -> (r: Option<String>)
    ensures
        r.is_some() == tx_decoding(bytes@).is_some(),
        r.is_some() == tx_debug_text(bytes@).is_some(),
        r.is_some() ==> r.unwrap()@ == tx_debug_text(bytes@).unwrap(),
{
    let t: WireTransaction = deserialize(bytes).ok()?;
    Some(format!("{:?}", t))
}

/// What decoding a text gives: the transaction, or the reason why there is
/// none. The text has to be hexadecimal, and its bytes the encoding of a
/// transaction.
pub open spec fn decoded_tx(raw: Seq<char>) -> Result<TransactionView, TxError> {
    match hex_decoding(raw) {
        None => Err(TxError::BadArgument),
        Some(bytes) => match tx_decoding(bytes) {
            None => Err(TxError::BadTransaction),
            Some(t) => Ok(t),
        },
    }
}

/// Reads a transaction from the hexadecimal text of its encoding.
///
/// Of the text that encodes a transaction which [`reads_back`], the result
/// is that transaction: decoding undoes encoding.
pub fn decode_tx(raw: &str) -> (r: Result<Transaction, TxError>)
    ensures
        match r {
            Ok(t) => decoded_tx(raw@) == Ok::<TransactionView, TxError>(t@) && t@.wf(),
            Err(e) => decoded_tx(raw@) == Err::<TransactionView, TxError>(e),
        },
        forall|t: TransactionView|
            reads_back(t) && raw@ == hex_text(#[trigger] tx_encoding(t)) ==> r.is_ok()
                && r.unwrap()@ == t,
{
    proof {
        assert forall|t: TransactionView| raw@ == hex_text(#[trigger] tx_encoding(t)) implies
            hex_decoding(raw@) == Some(tx_encoding(t)) by {
            lemma_hex_round_trip(tx_encoding(t));
        }
    }
    let bytes = match from_hex(raw) {
        Ok(b) => b,
        Err(_) => {
            return Err(TxError::BadArgument);
        },
    };
    match deserialize_tx(bytes.as_slice()) {
        Some(t) => Ok(t),
        None => Err(TxError::BadTransaction),
    }
}

/// Reads a transaction from the hexadecimal text of its encoding and
/// describes it in words. It fails exactly where [`decode_tx`] fails, with
/// the same reason.
pub fn describe_tx(raw: &str) -> (r: Result<String, TxError>)
    ensures
        match r {
            Ok(s) => decoded_tx(raw@).is_ok() && Some(s@) == tx_debug_text(
                hex_decoding(raw@).unwrap(),
            ),
            Err(e) => decoded_tx(raw@) == Err::<TransactionView, TxError>(e),
        },
{
    let bytes = match from_hex(raw) {
        Ok(b) => b,
        Err(_) => {
            return Err(TxError::BadArgument);
        },
    };
    match debug_text(bytes.as_slice()) {
        Some(s) => Ok(s),
        None => Err(TxError::BadTransaction),
    }
}

} // verus!
