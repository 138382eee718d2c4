//! Transactions as plain data.

use vstd::prelude::*;

verus! {

/// A transaction input: the output it spends, the script that unlocks it,
/// its sequence number and its witness stack.
#[derive(Clone, Debug, PartialEq, Eq)]
pub struct TxIn {
    /// The id of the transaction that holds the spent output, in the byte
    /// order of the wire format.
    pub txid: [u8; 32],
    /// The index of the spent output in that transaction.
    pub vout: u32,
    pub script_sig: Vec<u8>,
    pub sequence: u32,
    pub witness: Vec<Vec<u8>>,
}

/// A transaction output: an amount and the script that locks it.
#[derive(Clone, Debug, PartialEq, Eq)]
pub struct TxOut {
    pub value: u64,
    pub script_pubkey: Vec<u8>,
}

/// A transaction.
#[derive(Clone, Debug, PartialEq, Eq)]
pub struct Transaction {
    pub version: u32,
    pub lock_time: u32,
    pub input: Vec<TxIn>,
    pub output: Vec<TxOut>,
}

/// What a [`TxIn`] holds.
pub struct TxInView {
    pub txid: Seq<u8>,
    pub vout: u32,
    pub script_sig: Seq<u8>,
    pub sequence: u32,
    pub witness: Seq<Seq<u8>>,
}

/// What a [`TxOut`] holds.
pub struct TxOutView {
    pub value: u64,
    pub script_pubkey: Seq<u8>,
}

/// What a [`Transaction`] holds.
pub struct TransactionView {
    pub version: u32,
    pub lock_time: u32,
    pub input: Seq<TxInView>,
    pub output: Seq<TxOutView>,
}

impl View for TxIn {
    type V = TxInView;

    open spec fn view(&self) -> TxInView {
        TxInView {
            txid: self.txid@,
            vout: self.vout,
            script_sig: self.script_sig@,
            sequence: self.sequence,
            witness: self.witness@.map_values(|w: Vec<u8>| w@),
        }
    }
}

impl View for TxOut {
    type V = TxOutView;

    open spec fn view(&self) -> TxOutView {
        TxOutView { value: self.value, script_pubkey: self.script_pubkey@ }
    }
}

impl View for Transaction {
    type V = TransactionView;

    open spec fn view(&self) -> TransactionView {
        TransactionView {
            version: self.version,
            lock_time: self.lock_time,
            input: self.input@.map_values(|i: TxIn| i@),
            output: self.output@.map_values(|o: TxOut| o@),
        }
    }
}

impl TransactionView {
    /// No input carries a witness.
    pub open spec fn without_witness(self) -> bool {
        forall|i: int| 0 <= i < self.input.len() ==> (#[trigger] self.input[i]).witness.len() == 0
    }

    /// Every transaction id is 32 bytes long.
    pub open spec fn wf(self) -> bool {
        forall|i: int| 0 <= i < self.input.len() ==> (#[trigger] self.input[i]).txid.len() == 32
    }
}

/// The number of bytes of a length prefix: one below 253, then three, five
/// or nine as the length needs two, four or eight bytes.
pub open spec fn varint_len(n: nat) -> nat {
    if n < 0xFD {
        1
    } else if n <= 0xFFFF {
        3
    } else if n <= 0xFFFF_FFFF {
        5
    } else {
        9
    }
}

/// The size of an input on the wire: the spent output (36 bytes), the
/// script with its length prefix, and the sequence number.
pub open spec fn input_len(i: TxInView) -> nat {
    36 + varint_len(i.script_sig.len()) + i.script_sig.len() + 4
}

/// The size of an output on the wire: the amount and the script with its
/// length prefix.
pub open spec fn output_len(o: TxOutView) -> nat {
    8 + varint_len(o.script_pubkey.len()) + o.script_pubkey.len()
}

/// The sizes of a list of inputs, added up.
pub open spec fn inputs_len(s: Seq<TxInView>) -> nat
    decreases s.len(),
{
    if s.len() == 0 {
        0
    } else {
        inputs_len(s.drop_last()) + input_len(s.last())
    }
}

/// The sizes of a list of outputs, added up.
pub open spec fn outputs_len(s: Seq<TxOutView>) -> nat
    decreases s.len(),
{
    if s.len() == 0 {
        0
    } else {
        outputs_len(s.drop_last()) + output_len(s.last())
    }
}

/// The size on the wire of a transaction without witnesses: the version,
/// the inputs and the outputs, each list behind its count, and the lock time.
pub open spec fn encoded_len(tx: TransactionView) -> nat {
    4 + varint_len(tx.input.len()) + inputs_len(tx.input) + varint_len(tx.output.len())
        + outputs_len(tx.output) + 4
}

} // verus!
