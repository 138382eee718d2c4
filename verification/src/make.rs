//! Building a transaction from a flat list of arguments.
//!
//! The list reads `inputs`, then four arguments for each input (the id of
//! the transaction spent from, the index of the output in it, the unlocking
//! script, the sequence number), then `outputs`, then two arguments for each
//! output (the amount and the locking script), then, if one argument is left
//! over, the lock time.

use vstd::prelude::*;
use crate::codec::{serialize_tx, tx_encoding};
use crate::error::TxError;
use crate::hex::{from_hex, hex_decoding, hex_text, to_hex};
use crate::number::{decimal_up_to, parse_u32, parse_u64};
use crate::text::{same_text, texts};
use crate::tx::{Transaction, TransactionView, TxIn, TxInView, TxOut, TxOutView, encoded_len};

verus! {

/// The place of the first argument `outputs` at or after `from`, or the
/// length of the list if there is none.
pub open spec fn marker_from(args: Seq<Seq<char>>, from: int) -> int
    decreases args.len() - from,
{
    if from >= args.len() {
        args.len() as int
    } else if args[from] == "outputs"@ {
        from
    } else {
        marker_from(args, from + 1)
    }
}

/// The place of the marker that ends the inputs: the first `outputs` after
/// the leading `inputs`.
pub open spec fn marker(args: Seq<Seq<char>>) -> int {
    marker_from(args, 1)
}

/// The list starts with `inputs`, and the marker `outputs` has at least one
/// argument before it and one after it.
pub open spec fn shaped(args: Seq<Seq<char>>) -> bool {
    &&& args.len() >= 1
    &&& args[0] == "inputs"@
    &&& 1 < marker(args) < args.len() - 1
}

/// The number of arguments between the two markers.
pub open spec fn input_args(args: Seq<Seq<char>>) -> int {
    marker(args) - 1
}

/// The number of arguments after the marker `outputs`.
pub open spec fn output_args(args: Seq<Seq<char>>) -> int {
    args.len() - marker(args) - 1
}

/// The lock time: the last argument where an odd number of them follows
/// `outputs`, else zero. `None` where that argument is no 32-bit number.
pub open spec fn lock_time_of(args: Seq<Seq<char>>) -> Option<nat> {
    if output_args(args) % 2 == 1 {
        decimal_up_to(args.last(), u32::MAX as nat)
    } else {
        Some(0)
    }
}

/// A transaction id as the transaction holds it: the first 32 bytes of the
/// id given, in reverse order.
pub open spec fn spent_txid(id: Seq<u8>) -> Seq<u8> {
    Seq::new(32, |j: int| id[31 - j])
}

/// The input that four arguments describe, or `None` where one of them is
/// malformed: the id and the script are hexadecimal, the id has at least 32
/// bytes, the index and the sequence number are 32-bit numbers.
pub open spec fn input_from(
    txid: Seq<char>,
    vout: Seq<char>,
    script: Seq<char>,
    sequence: Seq<char>,
) -> Option<TxInView> {
    match (
        hex_decoding(txid),
        decimal_up_to(vout, u32::MAX as nat),
        hex_decoding(script),
        decimal_up_to(sequence, u32::MAX as nat),
    ) {
        (Some(id), Some(v), Some(sc), Some(sq)) => if id.len() >= 32 {
            Some(
                TxInView {
                    txid: spent_txid(id),
                    vout: v as u32,
                    script_sig: sc,
                    sequence: sq as u32,
                    witness: Seq::empty(),
                },
            )
        } else {
            None
        },
        _ => None,
    }
}

/// The output that two arguments describe, or `None` where the amount is no
/// 64-bit number or the script is not hexadecimal.
pub open spec fn output_from(value: Seq<char>, script: Seq<char>) -> Option<TxOutView> {
    match (decimal_up_to(value, u64::MAX as nat), hex_decoding(script)) {
        (Some(v), Some(sc)) => Some(TxOutView { value: v as u64, script_pubkey: sc }),
        _ => None,
    }
}

/// The input that the `k`-th group of four describes.
pub open spec fn input_at(args: Seq<Seq<char>>, k: int) -> Option<TxInView> {
    input_from(args[1 + 4 * k], args[2 + 4 * k], args[3 + 4 * k], args[4 + 4 * k])
}

/// The output that the `k`-th group of two describes.
pub open spec fn output_at(args: Seq<Seq<char>>, k: int) -> Option<TxOutView> {
    output_from(args[marker(args) + 1 + 2 * k], args[marker(args) + 2 + 2 * k])
}

/// The lock time and every group of arguments is well formed.
pub open spec fn fields_ok(args: Seq<Seq<char>>) -> bool {
    &&& lock_time_of(args).is_some()
    &&& forall|k: int| 0 <= k < input_args(args) / 4 ==> (#[trigger] input_at(args, k)).is_some()
    &&& forall|k: int| 0 <= k < output_args(args) / 2 ==> (#[trigger] output_at(args, k)).is_some()
}

/// The transaction that a list of arguments describes, or the reason why it
/// describes none. The shape of the list is judged first, then the grouping
/// of the inputs, then the arguments themselves. The version is 1.
pub open spec fn made_tx(args: Seq<Seq<char>>) -> Result<TransactionView, TxError> {
    if !shaped(args) {
        Err(TxError::Usage)
    } else if input_args(args) % 4 != 0 {
        Err(TxError::InputGroups(input_args(args) as usize))
    } else if !fields_ok(args) {
        Err(TxError::BadArgument)
    } else {
        Ok(
            TransactionView {
                version: 1,
                lock_time: lock_time_of(args).unwrap() as u32,
                input: Seq::new((input_args(args) / 4) as nat, |k: int| input_at(args, k).unwrap()),
                output: Seq::new(
                    (output_args(args) / 2) as nat,
                    |k: int| output_at(args, k).unwrap(),
                ),
            },
        )
    }
}

/// Once an `outputs` is known to stand at `m` and none between `from` and
/// `m`, the search from `from` ends at `m`.
proof fn lemma_marker_found(args: Seq<Seq<char>>, from: int, m: int)
    requires
        0 <= from <= m <= args.len(),
        forall|i: int| from <= i < m ==> args[i] != "outputs"@,
        m < args.len() ==> args[m] == "outputs"@,
    ensures
        marker_from(args, from) == m,
    decreases m - from,
{
    if from < m {
        lemma_marker_found(args, from + 1, m);
    }
}

fn reversed_txid(id: &Vec<u8>) -> (r: [u8; 32])
    requires
        id@.len() >= 32,
    ensures
        r@ == spent_txid(id@),
{
    let mut out = [0u8;32];
    let mut j: usize = 0;
    while j < 32
        invariant
            j <= 32,
            id@.len() >= 32,
            forall|k: int| 0 <= k < j ==> out@[k] == id@[31 - k],
        decreases 32 - j,
    {
        out[j] = id[31 - j];
        j = j + 1;
    }
    assert(out@ =~= spent_txid(id@));
    out
}

/// Reads the four arguments of an input.
pub fn parse_input(txid: &str, vout: &str, script: &str, sequence: &str) -> (r: Option<TxIn>)
    ensures
        r.is_some() == input_from(txid@, vout@, script@, sequence@).is_some(),
        r.is_some() ==> r.unwrap()@ == input_from(txid@, vout@, script@, sequence@).unwrap(),
{
    let id = match from_hex(txid) {
        Ok(b) => b,
        Err(_) => {
            return None;
        },
    };
    let v = match parse_u32(vout) {
        Some(n) => n,
        None => {
            return None;
        },
    };
    let sc = match from_hex(script) {
        Ok(b) => b,
        Err(_) => {
            return None;
        },
    };
    let sq = match parse_u32(sequence) {
        Some(n) => n,
        None => {
            return None;
        },
    };
    if id.len() < 32 {
        return None;
    }
    let input = TxIn {
        txid: reversed_txid(&id),
        vout: v,
        script_sig: sc,
        sequence: sq,
        witness: Vec::new(),
    };
    assert(input@.witness =~= Seq::<Seq<u8>>::empty());
    Some(input)
}

/// Reads the two arguments of an output.
pub fn parse_output(value: &str, script: &str) -> (r: Option<TxOut>)
    ensures
        r.is_some() == output_from(value@, script@).is_some(),
        r.is_some() ==> r.unwrap()@ == output_from(value@, script@).unwrap(),
{
    let v = match parse_u64(value) {
        Some(n) => n,
        None => {
            return None;
        },
    };
    let sc = match from_hex(script) {
        Ok(b) => b,
        Err(_) => {
            return None;
        },
    };
    Some(TxOut { value: v, script_pubkey: sc })
}

/// Reads the arguments that describe a transaction.
pub fn parse_tx_args(args: &Vec<String>) -> (r: Result<Transaction, TxError>)
    ensures
        match r {
            Ok(t) => made_tx(texts(args@)) == Ok::<TransactionView, TxError>(t@),
            Err(e) => made_tx(texts(args@)) == Err::<TransactionView, TxError>(e),
        },
{
    let ghost a = texts(args@);
    let n = args.len();
    assert(a.len() == n);
    assert(forall|i: int| 0 <= i < n ==> #[trigger] a[i] == args@[i]@);
    if n < 1 {
        return Err(TxError::Usage);
    }
    if !same_text(args[0].as_str(), "inputs") {
        return Err(TxError::Usage);
    }
    let mut m: usize = 1;
    while m < n && !same_text(args[m].as_str(), "outputs")
        invariant
            1 <= m <= n,
            n == args@.len(),
            a == texts(args@),
            forall|i: int| 1 <= i < m ==> a[i] != "outputs"@,
        decreases n - m,
    {
        m = m + 1;
    }
    proof {
        lemma_marker_found(a, 1, m as int);
    }
    if m == n || m == 1 || m == n - 1 {
        return Err(TxError::Usage);
    }
    let input_args_n = m - 1;
    let output_args_n = n - m - 1;
    if input_args_n % 4 != 0 {
        return Err(TxError::InputGroups(input_args_n));
    }
    let lock_time: u32 = if output_args_n % 2 != 0 {
        match parse_u32(args[n - 1].as_str()) {
            Some(t) => t,
            None => {
                return Err(TxError::BadArgument);
            },
        }
    } else {
        0
    };
    let n_in = input_args_n / 4;
    let n_out = output_args_n / 2;
    let mut input: Vec<TxIn> = Vec::new();
    let mut k: usize = 0;
    while k < n_in
        invariant
            k <= n_in,
            shaped(a),
            input_args(a) % 4 == 0,
            n_in == input_args(a) / 4,
            1 + 4 * n_in <= n,
            n == args@.len(),
            a == texts(args@),
            input@.len() == k,
            forall|j: int| 0 <= j < k ==> (#[trigger] input_at(a, j)).is_some(),
            forall|j: int| 0 <= j < k ==> (#[trigger] input@[j])@ == input_at(a, j).unwrap(),
        decreases n_in - k,
    {
        let at = 1 + 4 * k;
        match parse_input(
            args[at].as_str(),
            args[at + 1].as_str(),
            args[at + 2].as_str(),
            args[at + 3].as_str(),
        ) {
            Some(i) => {
                input.push(i);
            },
            None => {
                assert(input_at(a, k as int).is_none());
                return Err(TxError::BadArgument);
            },
        }
        k = k + 1;
    }
    let mut output: Vec<TxOut> = Vec::new();
    let mut k: usize = 0;
    while k < n_out
        invariant
            k <= n_out,
            shaped(a),
            input_args(a) % 4 == 0,
            n_out == output_args(a) / 2,
            m == marker(a),
            m + 1 + 2 * n_out <= n,
            n == args@.len(),
            a == texts(args@),
            output@.len() == k,
            forall|j: int| 0 <= j < k ==> (#[trigger] output_at(a, j)).is_some(),
            forall|j: int| 0 <= j < k ==> (#[trigger] output@[j])@ == output_at(a, j).unwrap(),
        decreases n_out - k,
    {
        let at = m + 1 + 2 * k;
        match parse_output(args[at].as_str(), args[at + 1].as_str()) {
            Some(o) => {
                output.push(o);
            },
            None => {
                assert(output_at(a, k as int).is_none());
                return Err(TxError::BadArgument);
            },
        }
        k = k + 1;
    }
    let t = Transaction { version: 1, lock_time, input, output };
    proof {
        assert(fields_ok(a));
        assert(t@.input =~= made_tx(a).unwrap().input);
        assert(t@.output =~= made_tx(a).unwrap().output);
    }
    Ok(t)
}

/// A transaction that arguments describe carries no witness, and its ids
/// have 32 bytes.
pub proof fn lemma_made_tx_is_plain(args: Seq<Seq<char>>)
    requires
        made_tx(args).is_ok(),
    ensures
        made_tx(args).unwrap().without_witness(),
        made_tx(args).unwrap().wf(),
        made_tx(args).unwrap().version == 1,
{
    let t = made_tx(args).unwrap();
    assert forall|i: int| 0 <= i < t.input.len() implies (#[trigger] t.input[i]).witness.len() == 0
        && t.input[i].txid.len() == 32 by {
        assert(input_at(args, i).is_some());
    }
}

/// Builds a transaction from its arguments and writes its encoding as
/// hexadecimal text: two characters for each byte of the version, the
/// inputs behind their count, the outputs behind theirs, and the lock time.
pub fn make_tx(args: &Vec<String>) -> (r: Result<String, TxError>)
    ensures
        match r {
            Ok(s) => made_tx(texts(args@)).is_ok() && s@ == hex_text(
                tx_encoding(made_tx(texts(args@)).unwrap()),
            ) && tx_encoding(made_tx(texts(args@)).unwrap()).len() == encoded_len(
                made_tx(texts(args@)).unwrap(),
            ) && s@.len() == 2 * encoded_len(made_tx(texts(args@)).unwrap()),
            Err(e) => made_tx(texts(args@)) == Err::<TransactionView, TxError>(e),
        },
{
    match parse_tx_args(args) {
        Ok(t) => {
            proof {
                lemma_made_tx_is_plain(texts(args@));
            }
            let bytes = serialize_tx(&t);
            Ok(to_hex(bytes.as_slice()))
        },
        Err(e) => Err(e),
    }
}

/// Arguments between the markers that do not come in fours are refused,
/// with their number.
pub proof fn lemma_ungrouped_inputs_refused(args: Seq<Seq<char>>)
    requires
        shaped(args),
        input_args(args) % 4 != 0,
    ensures
        made_tx(args) == Err::<TransactionView, TxError>(
            TxError::InputGroups(input_args(args) as usize),
        ),
{
}

/// Once the lock time is taken off, the arguments after `outputs` come in
/// twos: a list is never refused for its number of outputs.
pub proof fn lemma_outputs_pair_up(args: Seq<Seq<char>>)
    requires
        made_tx(args).is_ok(),
    ensures
        output_args(args) == 2 * made_tx(args).unwrap().output.len() + (if output_args(args) % 2
            == 1 {
            1int
        } else {
            0int
        }),
        input_args(args) == 4 * made_tx(args).unwrap().input.len(),
{
}

} // verus!
