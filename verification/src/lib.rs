//! Verified core of a client for the File Transfer Protocol: parsing of
//! control-channel replies (single- and multi-line), decoding of passive-mode
//! addresses, serialization of command lines, and the state machines that
//! govern login, transfers and renames.
//!
//! All socket work is left to the embedding program; this crate works on the
//! bytes that cross the control connection and on the status codes carried in
//! the server's replies.

pub mod bytes;
pub mod codes;
pub mod command;
pub mod error;
pub mod lines;
pub mod pasv;
pub mod reply;
pub mod session;
pub mod transfer;
pub mod verbs;

use vstd::prelude::*;

verus! {

/// True for the ASCII digits `'0'..='9'`.
pub open spec fn is_digit(b: u8) -> bool {
    48 <= b && b <= 57
}

/// Numeric value of an ASCII digit.
pub open spec fn digit_val(b: u8) -> nat {
    (b - 48) as nat
}

} // verus!
