//! Errors of the command codec.

use vstd::prelude::*;

verus! {

/// What can go wrong while decoding or validating a command.
#[derive(Clone, Copy, Debug, PartialEq, Eq, Structural)]
pub enum IggyError {
    /// The frame is shorter than the command allows, or a consumer kind code
    /// is not known.
    InvalidCommand,
    /// An identifier has an unknown kind tag, does not fit the buffer, or
    /// breaks a rule on names.
    InvalidIdentifier,
    /// A fixed-width number does not have the bytes it needs.
    InvalidNumberEncoding,
}

} // verus!
