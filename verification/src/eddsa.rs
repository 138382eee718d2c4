//! EdDSA keys over the Edwards form of Curve25519.

use vstd::prelude::*;
use curve25519_dalek::edwards::CompressedEdwardsY;
use ed25519_dalek::{Keypair, PublicKey, SecretKey};
use rand::rngs::OsRng;
use sha2::Sha512;
use crate::error::TxError;
use crate::hex::{from_hex, hex_decoding, hex_text, lemma_hex_round_trip, to_hex};

verus! {

/// The public key that `ed25519_dalek`'s `PublicKey::from_secret` derives
/// from a secret key of 32 bytes, with SHA-512 as the hash.
pub uninterp spec fn ed25519_public_key(secret: Seq<u8>) -> Seq<u8>;

/// Whether `curve25519_dalek`'s `CompressedEdwardsY::decompress` finds a
/// point of the curve in 32 bytes.
pub uninterp spec fn edwards_point(bytes: Seq<u8>) -> bool;

/// `Keypair::generate` of the `ed25519_dalek` crate on the operating
/// system's random numbers (`OsRng` of the `rand` crate), and the secret
/// half of the pair. `None` where the operating system gives no generator.
#[verifier::external_body]
fn random_secret() -> (r: Option<[u8; 32]>)
{
    let mut csprng = OsRng::new().ok()?;
    let keypair = Keypair::generate::<Sha512, _>(&mut csprng);
    Some(keypair.secret.to_bytes())
}

/// `SecretKey::from_bytes` and `PublicKey::from_secret` of the
/// `ed25519_dalek` crate, with SHA-512. The result is named. The crate
/// computes a multiple of the base point and compresses it, so the result
/// is the compressed form of a point of the curve.
#[verifier::external_body]
fn derive_public(secret: &[u8; 32]) -> (r: [u8; 32])
    ensures
        r@ == ed25519_public_key(secret@),
        edwards_point(r@),
{
    let sk = SecretKey::from_bytes(&secret[..]).unwrap();
    PublicKey::from_secret::<Sha512>(&sk).to_bytes()
}

/// `CompressedEdwardsY::decompress` of the `curve25519_dalek` crate:
/// whether it finds a point. The result is named.
#[verifier::external_body]
fn decompresses(bytes: &[u8; 32]) -> (r: bool)
    ensures
        r == edwards_point(bytes@),
{
    CompressedEdwardsY(*bytes).decompress().is_some()
}

fn key_bytes(v: &Vec<u8>) -> (r: [u8; 32])
    requires
        v@.len() == 32,
    ensures
        r@ == v@,
{
    let mut out = [0u8;32];
    let mut j: usize = 0;
    while j < 32
        invariant
            j <= 32,
            v@.len() == 32,
            forall|k: int| 0 <= k < j ==> out@[k] == v@[k],
        decreases 32 - j,
    {
        out[j] = v[j];
        j = j + 1;
    }
    assert(out@ =~= v@);
    out
}

/// The bytes of a key given in hexadecimal, or the reason why the text
/// gives none: it has to be hexadecimal and stand for 32 bytes.
pub open spec fn key_of(text: Seq<char>) -> Result<Seq<u8>, TxError> {
    match hex_decoding(text) {
        None => Err(TxError::BadArgument),
        Some(b) => if b.len() == 32 {
            Ok(b)
        } else {
            Err(TxError::BadKeyLength)
        },
    }
}

fn read_key(text: &str) -> (r: Result<[u8; 32], TxError>)
    ensures
        match r {
            Ok(k) => key_of(text@) == Ok::<Seq<u8>, TxError>(k@),
            Err(e) => key_of(text@) == Err::<Seq<u8>, TxError>(e),
        },
{
    match from_hex(text) {
        Ok(b) => if b.len() == 32 {
            Ok(key_bytes(&b))
        } else {
            Err(TxError::BadKeyLength)
        },
        Err(_) => Err(TxError::BadArgument),
    }
}

/// Writes a secret key as hexadecimal text.
pub fn secret_text(secret: &[u8; 32]) -> (r: String)
    ensures
        r@ == hex_text(secret@),
        r@.len() == 64,
{
    to_hex(secret.as_slice())
}

/// A fresh secret key from the operating system's random numbers, as
/// hexadecimal text of 64 characters. It fails only where the operating
/// system gives no random numbers.
pub fn eddsa_privkey() -> (r: Result<String, TxError>)
    ensures
        match r {
            Ok(s) => s@.len() == 64 && exists|k: Seq<u8>| k.len() == 32 && s@ == #[trigger] hex_text(k),
            Err(e) => e == TxError::NoRandomness,
        },
{
    match random_secret() {
        Some(k) => Ok(secret_text(&k)),
        None => Err(TxError::NoRandomness),
    }
}

/// What [`eddsa_pubkey`] gives for a text.
pub open spec fn pubkey_text(secret: Seq<char>) -> Result<Seq<char>, TxError> {
    match key_of(secret) {
        Ok(k) => Ok(hex_text(ed25519_public_key(k))),
        Err(e) => Err(e),
    }
}

/// The public key of a secret key, both as hexadecimal text.
///
/// The text that comes out has 64 characters, depends on the secret key
/// alone, and passes [`eddsa_pubkey_check`].
pub fn eddsa_pubkey(secret: &str) -> (r: Result<String, TxError>)
    ensures
        match r {
            Ok(s) => pubkey_text(secret@) == Ok::<Seq<char>, TxError>(s@) && s@.len() == 64
                && pubkey_checked(s@) == Ok::<(), TxError>(()),
            Err(e) => pubkey_text(secret@) == Err::<Seq<char>, TxError>(e),
        },
{
    match read_key(secret) {
        Ok(k) => {
            let public = derive_public(&k);
            proof {
                lemma_hex_round_trip(public@);
            }
            Ok(to_hex(public.as_slice()))
        },
        Err(e) => Err(e),
    }
}

/// Every secret key that [`eddsa_privkey`] writes, [`eddsa_pubkey`] reads:
/// of the hexadecimal text of any 32 bytes it gives the public key.
pub proof fn lemma_pubkey_of_any_privkey(secret: Seq<u8>)
    requires
        secret.len() == 32,
    ensures
        pubkey_text(hex_text(secret)) == Ok::<Seq<char>, TxError>(
            hex_text(ed25519_public_key(secret)),
        ),
{
    lemma_hex_round_trip(secret);
}

/// What [`eddsa_pubkey_check`] gives for a text.
pub open spec fn pubkey_checked(public: Seq<char>) -> Result<(), TxError> {
    match key_of(public) {
        Ok(k) => if edwards_point(k) {
            Ok(())
        } else {
            Err(TxError::NotOnCurve)
        },
        Err(e) => Err(e),
    }
}

/// Checks that a public key, given as hexadecimal text, is the compressed
/// form of a point of the curve.
pub fn eddsa_pubkey_check(public: &str) -> (r: Result<(), TxError>)
    ensures
        r == pubkey_checked(public@),
{
    match read_key(public) {
        Ok(k) => if decompresses(&k) {
            Ok(())
        } else {
            Err(TxError::NotOnCurve)
        },
        Err(e) => Err(e),
    }
}

} // verus!
