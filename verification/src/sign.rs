//! Signing one input of a transaction.

use vstd::prelude::*;
use std::str::FromStr;
use bitcoin::blockdata::script::{Builder, Script};
use bitcoin::blockdata::transaction::Transaction as WireTransaction;
use bitcoin::network::serialize::deserialize;
use bitcoin::util::privkey::Privkey;
use secp256k1::key::{PublicKey, SecretKey};
use secp256k1::{Message, Secp256k1};
use crate::codec::{deserialize_tx, serialize_tx, tx_decoding, tx_encoding};
use crate::error::TxError;
use crate::hex::{from_hex, hex_decoding, hex_text, to_hex};
use crate::tx::{Transaction, TransactionView, TxInView};

verus! {

/// The hash that `bitcoin`'s `Transaction::signature_hash` computes for an
/// input of the transaction that a byte string encodes, the script of the
/// output it spends and a sighash type: 32 bytes.
pub uninterp spec fn tx_signature_hash(
    raw_tx: Seq<u8>,
    index: int,
    script_pubkey: Seq<u8>,
    sighash: u32,
) -> Seq<u8>;

/// The secret key that `bitcoin`'s `Privkey::from_str` reads from a text in
/// wallet import format, or `None` where it refuses the text.
pub uninterp spec fn wif_secret(key: Seq<char>) -> Option<Seq<u8>>;

/// The signature that `secp256k1`'s `Secp256k1::sign` gives for a message
/// and a secret key, after `normalize_s`, as `serialize_der` writes it.
/// `None` where the message or the key is refused.
pub uninterp spec fn ecdsa_signature(message: Seq<u8>, secret: Seq<u8>) -> Option<Seq<u8>>;

/// The public key that `secp256k1`'s `PublicKey::from_secret_key` derives
/// from a secret key, as `serialize` writes it. `None` where the key is
/// refused.
pub uninterp spec fn ecdsa_public_key(secret: Seq<u8>) -> Option<Seq<u8>>;

/// The opcode and length bytes that stand before data pushed by a script:
/// the length alone below 76, else an opcode and the length in one, two or
/// four bytes, low byte first.
pub open spec fn push_prefix(n: nat) -> Seq<u8> {
    if n < 0x4c {
        seq![n as u8]
    } else if n < 0x100 {
        seq![0x4cu8, n as u8]
    } else if n < 0x10000 {
        seq![0x4du8, (n % 0x100) as u8, (n / 0x100) as u8]
    } else {
        seq![
            0x4eu8,
            (n % 0x100) as u8,
            ((n / 0x100) % 0x100) as u8,
            ((n / 0x10000) % 0x100) as u8,
            (n / 0x1000000) as u8,
        ]
    }
}

/// The script bytes that push a piece of data.
pub open spec fn pushed(data: Seq<u8>) -> Seq<u8> {
    push_prefix(data.len()) + data
}

/// The unlocking script of a signed input: the signature with the sighash
/// type as its last byte, then the public key.
pub open spec fn unlocking_script(signature: Seq<u8>, sighash: u32, public_key: Seq<u8>) -> Seq<
    u8,
> {
    pushed(signature.push((sighash % 256) as u8)) + pushed(public_key)
}

/// A transaction with the unlocking script of one input replaced.
pub open spec fn with_script(tx: TransactionView, index: int, script: Seq<u8>) -> TransactionView {
    TransactionView {
        input: tx.input.update(index, TxInView { script_sig: script, ..tx.input[index] }),
        ..tx
    }
}

/// `bitcoin::network::serialize::deserialize` to a transaction and
/// `Transaction::signature_hash` on it. The result is named; the crate
/// returns a 32-byte hash. It panics where the bytes encode no transaction
/// or the transaction has no such input.
#[verifier::external_body]
fn signature_hash(raw_tx: &[u8], index: usize, script_pubkey: Vec<u8>, sighash: u32) -> (r: [u8; 32])
    requires
        tx_decoding(raw_tx@).is_some(),
        index < tx_decoding(raw_tx@).unwrap().input.len(),
    ensures
        r@ == tx_signature_hash(raw_tx@, index as int, script_pubkey@, sighash),
{
    let t: WireTransaction = deserialize(raw_tx).unwrap();
    t.signature_hash(index, &Script::from(script_pubkey), sighash).into_bytes()
}

/// `Privkey::from_str` of the `bitcoin` crate, and the bytes of the secret
/// key it holds. The result is named; a key that is read has 32 bytes.
#[verifier::external_body]
fn read_wif(key: &str) -> (r: Option<Vec<u8>>)
    ensures
        r.is_some() == wif_secret(key@).is_some(),
        r.is_some() ==> r.unwrap()@ == wif_secret(key@).unwrap() && r.unwrap()@.len() == 32,
{
    let k = Privkey::from_str(key).ok()?;
    Some(k.secret_key()[..].to_vec())
}

/// `Secp256k1::sign` of the `secp256k1` crate, with `Signature::normalize_s`
/// and `Signature::serialize_der`. The result is named; the crate writes a
/// signature in at most 72 bytes.
#[verifier::external_body]
fn sign_digest(message: &[u8; 32], secret: &Vec<u8>) -> (r: Option<Vec<u8>>)
    ensures
        r.is_some() == ecdsa_signature(message@, secret@).is_some(),
        r.is_some() ==> r.unwrap()@ == ecdsa_signature(message@, secret@).unwrap()
            && r.unwrap()@.len() <= 72,
{
    let secp = Secp256k1::new();
    let msg = Message::from_slice(&message[..]).ok()?;
    let sk = SecretKey::from_slice(&secp, &secret[..]).ok()?;
    let mut sig = secp.sign(&msg, &sk);
    sig.normalize_s(&secp);
    Some(sig.serialize_der(&secp))
}

/// `PublicKey::from_secret_key` and `PublicKey::serialize` of the
/// `secp256k1` crate. The result is named; the crate writes a public key in
/// 33 bytes.
#[verifier::external_body]
fn public_key(secret: &Vec<u8>) -> (r: Option<Vec<u8>>)
    ensures
        r.is_some() == ecdsa_public_key(secret@).is_some(),
        r.is_some() ==> r.unwrap()@ == ecdsa_public_key(secret@).unwrap() && r.unwrap()@.len()
            == 33,
{
    let secp = Secp256k1::new();
    let sk = SecretKey::from_slice(&secp, &secret[..]).ok()?;
    Some(PublicKey::from_secret_key(&secp, &sk).serialize().to_vec())
}

/// `Builder::push_slice` of the `bitcoin` crate, twice, and the bytes of
/// the script built: each piece of data behind its opcode and length. The
/// crate panics on data of four gigabytes and more.
#[verifier::external_body]
fn push_both(first: &Vec<u8>, second: &Vec<u8>) -> (r: Vec<u8>)
    requires
        first@.len() < 0x1_0000_0000,
        second@.len() < 0x1_0000_0000,
    ensures
        r@ == pushed(first@) + pushed(second@),
{
    Builder::new().push_slice(&first[..]).push_slice(&second[..]).into_script().into_bytes()
}

/// The unlocking script for a signature, the sighash type under which it
/// was made and the public key that verifies it.
pub fn script_sig_for(signature: Vec<u8>, sighash: u32, public_key: &Vec<u8>) -> (r: Vec<u8>)
    requires
        signature@.len() < 0xFFFF_FFFF,
        public_key@.len() < 0x1_0000_0000,
    ensures
        r@ == unlocking_script(signature@, sighash, public_key@),
{
    let mut sig = signature;
    sig.push((sighash % 256) as u8);
    push_both(&sig, public_key)
}

/// Replaces the unlocking script of one input.
pub fn set_script_sig(tx: Transaction, index: usize, script: Vec<u8>) -> (r: Transaction)
    requires
        index < tx.input.len(),
    ensures
        r@ == with_script(tx@, index as int, script@),
{
    let mut t = tx;
    t.input[index].script_sig = script;
    assert(t@.input =~= with_script(tx@, index as int, script@).input);
    assert(t@.output =~= tx@.output);
    t
}

/// The transaction that signing gives, or the reason why there is none.
///
/// The raw transaction is read first, then the script of the spent output;
/// then the input has to exist and the key has to be read. The input's
/// unlocking script becomes the signature over its signature hash, with the
/// sighash type as the last byte, followed by the public key.
pub open spec fn signed_tx(
    raw_tx: Seq<char>,
    script_pubkey: Seq<char>,
    key: Seq<char>,
    index: int,
    sighash: u32,
) -> Result<TransactionView, TxError> {
    match hex_decoding(raw_tx) {
        None => Err(TxError::BadArgument),
        Some(bytes) => match tx_decoding(bytes) {
            None => Err(TxError::BadTransaction),
            Some(tx) => match hex_decoding(script_pubkey) {
                None => Err(TxError::BadArgument),
                Some(spk) => if !(0 <= index < tx.input.len()) {
                    Err(TxError::NoSuchInput)
                } else {
                    match wif_secret(key) {
                        None => Err(TxError::BadKey),
                        Some(secret) => match (
                            ecdsa_signature(tx_signature_hash(bytes, index, spk, sighash), secret),
                            ecdsa_public_key(secret),
                        ) {
                            (Some(sig), Some(pk)) => Ok(
                                with_script(tx, index, unlocking_script(sig, sighash, pk)),
                            ),
                            _ => Err(TxError::BadKey),
                        },
                    }
                },
            },
        },
    }
}

/// Signs one input of a transaction and writes the signed transaction's
/// encoding as hexadecimal text.
///
/// `raw_tx` is the transaction in hexadecimal, `script_pubkey` the script of
/// the output that the input spends, in hexadecimal, and `key` the private
/// key in wallet import format.
pub fn sign_tx(raw_tx: &str, script_pubkey: &str, key: &str, index: usize, sighash: u32) -> (r:
    Result<String, TxError>)
    ensures
        match r {
            Ok(s) => signed_tx(raw_tx@, script_pubkey@, key@, index as int, sighash).is_ok()
                && s@ == hex_text(
                tx_encoding(
                    signed_tx(raw_tx@, script_pubkey@, key@, index as int, sighash).unwrap(),
                ),
            ),
            Err(e) => signed_tx(raw_tx@, script_pubkey@, key@, index as int, sighash) == Err::<
                TransactionView,
                TxError,
            >(e),
        },
{
    let raw = match from_hex(raw_tx) {
        Ok(b) => b,
        Err(_) => {
            return Err(TxError::BadArgument);
        },
    };
    let tx = match deserialize_tx(raw.as_slice()) {
        Some(t) => t,
        None => {
            return Err(TxError::BadTransaction);
        },
    };
    let spk = match from_hex(script_pubkey) {
        Ok(b) => b,
        Err(_) => {
            return Err(TxError::BadArgument);
        },
    };
    if index >= tx.input.len() {
        return Err(TxError::NoSuchInput);
    }
    let digest = signature_hash(raw.as_slice(), index, spk, sighash);
    let secret = match read_wif(key) {
        Some(k) => k,
        None => {
            return Err(TxError::BadKey);
        },
    };
    let sig = match sign_digest(&digest, &secret) {
        Some(s) => s,
        None => {
            return Err(TxError::BadKey);
        },
    };
    let pk = match public_key(&secret) {
        Some(p) => p,
        None => {
            return Err(TxError::BadKey);
        },
    };
    let script = script_sig_for(sig, sighash, &pk);
    let signed = set_script_sig(tx, index, script);
    let bytes = serialize_tx(&signed);
    Ok(to_hex(bytes.as_slice()))
}

} // verus!
