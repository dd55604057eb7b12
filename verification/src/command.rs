//! What every command and every field of a command has in common: a form on
//! the wire that can be written and read back, a size, a check of its rules,
//! and, for a command, the code that tells a receiver which command it is.

use crate::buffer::bytes_seq;
use crate::byte_size::IggyByteSize;
use crate::error::IggyError;
use bytes::Bytes;
use vstd::prelude::*;

verus! {

/// The outcome of a decoding, with the decoded value taken as its view.
pub open spec fn decoded<T: View>(outcome: Result<T, IggyError>) -> Result<T::V, IggyError> {
    match outcome {
        Ok(value) => Ok(value@),
        Err(e) => Err(e),
    }
}

/// A value that knows how many bytes it takes on the wire.
pub trait Sizeable: View {
    /// The number of bytes that a value takes on the wire.
    spec fn size_of(value: Self::V) -> nat;

    /// The number of bytes that this value takes on the wire.
    fn get_size_bytes(&self) -> (size: IggyByteSize)
        ensures
            size@ == Self::size_of(self@),
    ;
}

/// A value with rules of its own that do not depend on its form on the
/// wire.
pub trait Validatable<E>: View {
    /// The error that `validate` gives for a value, if it gives one.
    spec fn violation(value: Self::V) -> Option<E>;

    /// Checks the value against its rules.
    fn validate(&self) -> (outcome: Result<(), E>)
        ensures
            outcome == match Self::violation(self@) {
                None => Ok::<(), E>(()),
                Some(e) => Err(e),
            },
    ;
}

/// A value with a form on the wire.
///
/// The form is given by two functions on views, `encoding` and `decoding`,
/// and the trait asks for the proof that the second undoes the first.
pub trait BytesSerializable: View + Sized {
    /// The bytes that stand for a value.
    spec fn encoding(value: Self::V) -> Seq<u8>;

    /// The value that bytes stand for, or the reason why they stand for
    /// none.
    spec fn decoding(bytes: Seq<u8>) -> Result<Self::V, IggyError>;

    /// The values that come back from the wire as they went: those that a
    /// value of this type can hold, less the ones that the type's own
    /// description names as not representable on the wire.
    spec fn round_trips(value: Self::V) -> bool;

    /// Writes the value.
    fn to_bytes(&self) -> (bytes: Bytes)
        ensures
            bytes_seq(bytes) == Self::encoding(self@),
    ;

    /// Reads a value.
    fn from_bytes(bytes: Bytes) -> (value: Result<Self, IggyError>)
        ensures
            decoded(value) == Self::decoding(bytes_seq(bytes)),
    ;

    /// Round trip: reading what was written gives the value back.
    proof fn round_trip(value: Self::V)
        requires
            Self::round_trips(value),
        ensures
            Self::decoding(Self::encoding(value)) == Ok::<Self::V, IggyError>(value),
    ;
}

/// A request to the server: a value with a form on the wire, rules of its
/// own, and a code that no other kind of command has.
pub trait Command: BytesSerializable + Validatable<IggyError> {
    /// The code of this kind of command.
    spec fn opcode() -> u32;

    /// The code of this command, the same for every value of the type.
    fn code(&self) -> (code: u32)
        ensures
            code == Self::opcode(),
    ;
}

} // verus!
