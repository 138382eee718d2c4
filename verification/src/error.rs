//! The ways in which a command fails.

use vstd::prelude::*;

verus! {

/// Why a command could not be carried out.
#[derive(Clone, Copy, Debug, PartialEq, Eq)]
pub enum TxError {
    /// The arguments do not have the shape that the command asks for.
    Usage,
    /// There is no command of the name given.
    UnknownCommand,
    /// The arguments between the two markers do not come in groups of four;
    /// the number of them is given.
    InputGroups(usize),
    /// An argument is no hexadecimal text or no number of the size asked
    /// for, or a transaction id is shorter than 32 bytes.
    BadArgument,
    /// The bytes are not the encoding of a transaction.
    BadTransaction,
    /// The transaction has no input with the index given.
    NoSuchInput,
    /// The private key is not in wallet import format.
    BadKey,
    /// The operating system gave no random bytes.
    NoRandomness,
    /// The key does not have 32 bytes.
    BadKeyLength,
    /// The bytes are not those of a point of the curve.
    NotOnCurve,
}

} // verus!
