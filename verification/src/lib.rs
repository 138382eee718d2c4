//! Building, decoding and signing raw transactions, and EdDSA key handling.

pub mod pair;
pub mod text;
pub mod hex;
pub mod tx;
pub mod codec;
pub mod number;
pub mod error;
pub mod make;
pub mod decode;
pub mod sign;
pub mod eddsa;
pub mod command;

pub use crate::hex::{from_hex, to_hex};
pub use crate::pair::{Pair, Pairable};
