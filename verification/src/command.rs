//! The commands, as they are given on a command line.
//!
//! The first argument is the program's name and the second the command's;
//! the command's own arguments follow.

use vstd::prelude::*;
use crate::codec::tx_encoding;
use crate::decode::{decoded_tx, describe_tx, tx_debug_text};
use crate::eddsa::{
    eddsa_privkey,
    eddsa_pubkey,
    eddsa_pubkey_check,
    pubkey_checked,
    pubkey_text,
};
use crate::error::TxError;
use crate::hex::{hex_decoding, hex_text};
use crate::make::{made_tx, make_tx};
use crate::number::{decimal_up_to, parse_u32, parse_usize};
use crate::sign::{sign_tx, signed_tx};
use crate::text::{same_text, texts};
use crate::tx::TransactionView;

verus! {

/// A command.
#[derive(Clone, Copy, Debug, PartialEq, Eq)]
pub enum Command {
    EddsaPrivkey,
    EddsaPubkey,
    EddsaPubkeyCheck,
    DecodeTx,
    MakeTx,
    SignTx,
}

/// The command of a name.
pub open spec fn command_named(name: Seq<char>) -> Option<Command> {
    if name == "eddsa-privkey"@ {
        Some(Command::EddsaPrivkey)
    } else if name == "eddsa-pubkey"@ {
        Some(Command::EddsaPubkey)
    } else if name == "eddsa-pubkey-check"@ {
        Some(Command::EddsaPubkeyCheck)
    } else if name == "decode-tx"@ {
        Some(Command::DecodeTx)
    } else if name == "make-tx"@ {
        Some(Command::MakeTx)
    } else if name == "sign-tx"@ {
        Some(Command::SignTx)
    } else {
        None
    }
}

/// Finds the command of a name.
pub fn command_of(name: &str) -> (r: Option<Command>)
    ensures
        r == command_named(name@),
{
    if same_text(name, "eddsa-privkey") {
        Some(Command::EddsaPrivkey)
    } else if same_text(name, "eddsa-pubkey") {
        Some(Command::EddsaPubkey)
    } else if same_text(name, "eddsa-pubkey-check") {
        Some(Command::EddsaPubkeyCheck)
    } else if same_text(name, "decode-tx") {
        Some(Command::DecodeTx)
    } else if same_text(name, "make-tx") {
        Some(Command::MakeTx)
    } else if same_text(name, "sign-tx") {
        Some(Command::SignTx)
    } else {
        None
    }
}

/// The sighash type that a signing command asks for: its seventh argument,
/// or 1 where it has none.
pub open spec fn sighash_of(argv: Seq<Seq<char>>) -> Option<nat> {
    if argv.len() >= 7 {
        decimal_up_to(argv[6], u32::MAX as nat)
    } else {
        Some(1)
    }
}

/// What a signing command prints, or why it fails. The index of the input
/// and the sighash type are read before anything else.
pub open spec fn sign_reply(argv: Seq<Seq<char>>) -> Result<Seq<char>, TxError> {
    if argv.len() < 6 {
        Err(TxError::Usage)
    } else {
        match (decimal_up_to(argv[5], usize::MAX as nat), sighash_of(argv)) {
            (Some(index), Some(sighash)) => match signed_tx(
                argv[2],
                argv[3],
                argv[4],
                index as int,
                sighash as u32,
            ) {
                Ok(t) => Ok(hex_text(tx_encoding(t))),
                Err(e) => Err(e),
            },
            _ => Err(TxError::BadArgument),
        }
    }
}

/// A reply to `eddsa-privkey`: the hexadecimal text of some 32 bytes, or
/// the news that the operating system gave no random numbers.
pub open spec fn fresh_key(r: Result<Option<Seq<char>>, TxError>) -> bool {
    match r {
        Ok(Some(s)) => s.len() == 64 && exists|k: Seq<u8>|
            k.len() == 32 && s == #[trigger] hex_text(k),
        Ok(None) => false,
        Err(e) => e == TxError::NoRandomness,
    }
}

/// A line that a command prints, or the reason why it failed.
pub open spec fn printed(r: Result<Seq<char>, TxError>) -> Result<Option<Seq<char>>, TxError> {
    match r {
        Ok(s) => Ok(Some(s)),
        Err(e) => Err(e),
    }
}

/// Whether `r` is what a command gives on a command line: the line to
/// print, if any, or the reason why it failed. Every command but
/// `eddsa-privkey` has one answer; every command but that one and
/// `eddsa-pubkey-check` wants at least one argument and prints a line.
pub open spec fn answers(
    command: Command,
    argv: Seq<Seq<char>>,
    r: Result<Option<Seq<char>>, TxError>,
) -> bool {
    match command {
        Command::EddsaPrivkey => fresh_key(r),
        Command::SignTx => r == printed(sign_reply(argv)),
        _ => if argv.len() < 3 {
            r == Err::<Option<Seq<char>>, TxError>(TxError::Usage)
        } else {
            match command {
                Command::EddsaPubkey => r == printed(pubkey_text(argv[2])),
                Command::EddsaPubkeyCheck => match pubkey_checked(argv[2]) {
                    Ok(_) => r == Ok::<Option<Seq<char>>, TxError>(None),
                    Err(e) => r == Err::<Option<Seq<char>>, TxError>(e),
                },
                Command::DecodeTx => match decoded_tx(argv[2]) {
                    Ok(_) => r == Ok::<Option<Seq<char>>, TxError>(
                        tx_debug_text(hex_decoding(argv[2]).unwrap()),
                    ),
                    Err(e) => r == Err::<Option<Seq<char>>, TxError>(e),
                },
                _ => match made_tx(argv.skip(2)) {
                    Ok(t) => r == Ok::<Option<Seq<char>>, TxError>(
                        Some(hex_text(tx_encoding(t))),
                    ),
                    Err(e) => r == Err::<Option<Seq<char>>, TxError>(e),
                },
            }
        },
    }
}

/// What came of a command, seen as plain text.
pub open spec fn outcome(r: Result<Option<String>, TxError>) -> Result<Option<Seq<char>>, TxError> {
    match r {
        Ok(Some(s)) => Ok(Some(s@)),
        Ok(None) => Ok(None),
        Err(e) => Err(e),
    }
}

fn arguments_from(argv: &Vec<String>, from: usize) -> (r: Vec<String>)
    requires
        from <= argv@.len(),
    ensures
        texts(r@) == texts(argv@).skip(from as int),
{
    let mut out: Vec<String> = Vec::new();
    let mut i: usize = from;
    while i < argv.len()
        invariant
            from <= i <= argv@.len(),
            out@.len() == i - from,
            forall|k: int| 0 <= k < out@.len() ==> (#[trigger] out@[k])@ == argv@[from + k]@,
        decreases argv@.len() - i,
    {
        out.push(argv[i].clone());
        i = i + 1;
    }
    assert(texts(out@) =~= texts(argv@).skip(from as int));
    out
}

fn run_sign(argv: &Vec<String>) -> (r: Result<String, TxError>)
    ensures
        match r {
            Ok(s) => sign_reply(texts(argv@)) == Ok::<Seq<char>, TxError>(s@),
            Err(e) => sign_reply(texts(argv@)) == Err::<Seq<char>, TxError>(e),
        },
{
    let ghost a = texts(argv@);
    assert(forall|i: int| 0 <= i < argv@.len() ==> #[trigger] a[i] == argv@[i]@);
    if argv.len() < 6 {
        return Err(TxError::Usage);
    }
    let index = match parse_usize(argv[5].as_str()) {
        Some(i) => i,
        None => {
            return Err(TxError::BadArgument);
        },
    };
    let sighash: u32 = if argv.len() >= 7 {
        match parse_u32(argv[6].as_str()) {
            Some(s) => s,
            None => {
                return Err(TxError::BadArgument);
            },
        }
    } else {
        1
    };
    sign_tx(argv[2].as_str(), argv[3].as_str(), argv[4].as_str(), index, sighash)
}

/// Carries out the command that a command line names and gives the line to
/// print, if there is one.
///
/// A line without a command's name is refused as [`TxError::Usage`], and a
/// name that no command has as [`TxError::UnknownCommand`]; what a command
/// gives is said by [`answers`].
pub fn run(argv: &Vec<String>) -> (r: Result<Option<String>, TxError>)
    ensures
        argv@.len() < 2 ==> r == Err::<Option<String>, TxError>(TxError::Usage),
        argv@.len() >= 2 ==> match command_named(texts(argv@)[1]) {
            None => r == Err::<Option<String>, TxError>(TxError::UnknownCommand),
            Some(c) => answers(c, texts(argv@), outcome(r)),
        },
{
    let ghost a = texts(argv@);
    assert(forall|i: int| 0 <= i < argv@.len() ==> #[trigger] a[i] == argv@[i]@);
    if argv.len() < 2 {
        return Err(TxError::Usage);
    }
    let command = match command_of(argv[1].as_str()) {
        Some(c) => c,
        None => {
            return Err(TxError::UnknownCommand);
        },
    };
    match command {
        Command::EddsaPrivkey => match eddsa_privkey() {
            Ok(s) => Ok(Some(s)),
            Err(e) => Err(e),
        },
        Command::EddsaPubkey => {
            if argv.len() < 3 {
                return Err(TxError::Usage);
            }
            match eddsa_pubkey(argv[2].as_str()) {
                Ok(s) => Ok(Some(s)),
                Err(e) => Err(e),
            }
        },
        Command::EddsaPubkeyCheck => {
            if argv.len() < 3 {
                return Err(TxError::Usage);
            }
            match eddsa_pubkey_check(argv[2].as_str()) {
                Ok(_) => Ok(None),
                Err(e) => Err(e),
            }
        },
        Command::DecodeTx => {
            if argv.len() < 3 {
                return Err(TxError::Usage);
            }
            match describe_tx(argv[2].as_str()) {
                Ok(s) => Ok(Some(s)),
                Err(e) => Err(e),
            }
        },
        Command::MakeTx => {
            if argv.len() < 3 {
                return Err(TxError::Usage);
            }
            let args = arguments_from(argv, 2);
            match make_tx(&args) {
                Ok(s) => Ok(Some(s)),
                Err(e) => Err(e),
            }
        },
        Command::SignTx => match run_sign(argv) {
            Ok(s) => Ok(Some(s)),
            Err(e) => Err(e),
        },
    }
}

} // verus!
