//! The wire format of transactions, as the `bitcoin` crate writes and reads it.

use vstd::prelude::*;
use crate::tx::{Transaction, TransactionView, TxIn, TxOut, encoded_len};
use bitcoin::blockdata::script::Script;
use bitcoin::blockdata::transaction::{
    OutPoint,
    Transaction as WireTransaction,
    TxIn as WireTxIn,
    TxOut as WireTxOut,
};
use bitcoin::network::serialize::{deserialize, serialize};
use bitcoin::util::hash::Sha256dHash;

verus! {

/// The bytes that `bitcoin::network::serialize::serialize` writes for a
/// transaction.
pub uninterp spec fn tx_encoding(tx: TransactionView) -> Seq<u8>;

/// The transaction that `bitcoin::network::serialize::deserialize` reads
/// from a byte string, or `None` where it refuses the bytes.
pub uninterp spec fn tx_decoding(bytes: Seq<u8>) -> Option<TransactionView>;

/// The most inputs that the decoder allocates room for.
pub const MAX_DECODED_INPUTS: u64 = 400_000;

/// The most outputs that the decoder allocates room for.
pub const MAX_DECODED_OUTPUTS: u64 = 1_000_000;

/// The longest script that the decoder allocates room for.
pub const MAX_DECODED_SCRIPT: u64 = 33_554_432;

/// A transaction whose encoding the decoder reads back: it has an input, no
/// witnesses, and no list longer than the decoder allocates room for.
pub open spec fn reads_back(tx: TransactionView) -> bool {
    &&& tx.wf()
    &&& tx.without_witness()
    &&& 1 <= tx.input.len() <= MAX_DECODED_INPUTS
    &&& tx.output.len() <= MAX_DECODED_OUTPUTS
    &&& forall|i: int|
        0 <= i < tx.input.len() ==> (#[trigger] tx.input[i]).script_sig.len() <= MAX_DECODED_SCRIPT
    &&& forall|i: int|
        0 <= i < tx.output.len() ==> (#[trigger] tx.output[i]).script_pubkey.len()
            <= MAX_DECODED_SCRIPT
}

/// `bitcoin::network::serialize::serialize` on a transaction. The result is
/// named; of a transaction without witnesses the crate writes the version,
/// the two lists behind their counts and the lock time, so its length is
/// [`encoded_len`].
#[verifier::external_body]
pub(crate) fn serialize_tx(tx: &Transaction) -> (r: Vec<u8>)
    ensures
        r@ == tx_encoding(tx@),
        tx@.without_witness() ==> r@.len() == encoded_len(tx@),
{
    let input = tx.input.iter().map(|i| WireTxIn {
        previous_output: OutPoint { txid: Sha256dHash::from(&i.txid[..]), vout: i.vout },
        script_sig: Script::from(i.script_sig.clone()),
        sequence: i.sequence,
        witness: i.witness.clone(),
    }).collect();
    let output = tx.output.iter().map(|o| WireTxOut {
        value: o.value,
        script_pubkey: Script::from(o.script_pubkey.clone()),
    }).collect();
    let t = WireTransaction { version: tx.version, lock_time: tx.lock_time, input, output };
    serialize(&t).unwrap()
}

/// `bitcoin::network::serialize::deserialize` to a transaction. The result
/// is named. The decoder mirrors the encoder field by field, so it reads the
/// encoding of a transaction that [`reads_back`] as that transaction.
#[verifier::external_body]
pub(crate) fn deserialize_tx(bytes: &[u8]) -> (r: Option<Transaction>)
    ensures
        r.is_some() == tx_decoding(bytes@).is_some(),
        r.is_some() ==> r.unwrap()@ == tx_decoding(bytes@).unwrap() && r.unwrap()@.wf(),
        forall|t: TransactionView|
            reads_back(t) && bytes@ == #[trigger] tx_encoding(t) ==> r.is_some() && r.unwrap()@ == t,
{
    let t: WireTransaction = deserialize(bytes).ok()?;
    let input = t.input.into_iter().map(|i| TxIn {
        txid: i.previous_output.txid.into_bytes(),
        vout: i.previous_output.vout,
        script_sig: i.script_sig.into_bytes(),
        sequence: i.sequence,
        witness: i.witness,
    }).collect();
    let output = t.output.into_iter().map(|o| TxOut {
        value: o.value,
        script_pubkey: o.script_pubkey.into_bytes(),
    }).collect();
    Some(Transaction { version: t.version, lock_time: t.lock_time, input, output })
}

} // verus!
