//! Identifiers: the name of a stream, a topic or a consumer, given either as
//! a number or as a short byte string, and their form on the wire.
//!
//! On the wire an identifier starts with one byte that tells its kind. A
//! numeric identifier follows with four bytes, least significant first. A
//! named identifier follows with one byte of length and then that many bytes
//! of name. The first bytes alone therefore tell where the identifier ends.

use crate::buffer::{as_slice, bytes_seq, put_slice, put_u32_le, put_u8};
use crate::byte_size::IggyByteSize;
use crate::command::{decoded, BytesSerializable, Sizeable, Validatable};
use crate::error::IggyError;
use crate::text::{decimal, decimal_text, name_text, name_to_text};
use bytes::{Bytes, BytesMut};
use vstd::bytes::{
    lemma_auto_spec_u32_to_from_le_bytes, spec_u32_from_le_bytes, spec_u32_to_le_bytes,
    u32_from_le_bytes,
};
use vstd::prelude::*;
use vstd::slice::{slice_subrange, slice_to_vec};
use vstd::string::StringSliceAdditionalSpecFns;

verus! {

/// The kind tag of a numeric identifier.
pub const NUMERIC_KIND_CODE: u8 = 1;

/// The kind tag of a named identifier.
pub const NAMED_KIND_CODE: u8 = 2;

/// The longest name, in bytes, that the length byte can announce.
pub const MAX_NAME_LENGTH: usize = 255;

/// The encoded length of a numeric identifier: the tag and four bytes.
pub const NUMERIC_SIZE: usize = 5;

/// The two kinds of identifier.
#[derive(Clone, Copy, Debug, PartialEq, Eq, Structural)]
pub enum IdKind {
    /// A 32-bit number.
    Numeric,
    /// A name of up to 255 bytes.
    Named,
}

impl IdKind {
    /// The tag byte that stands for this kind.
    pub open spec fn code(self) -> u8 {
        match self {
            IdKind::Numeric => NUMERIC_KIND_CODE,
            IdKind::Named => NAMED_KIND_CODE,
        }
    }

    /// The kind that a tag byte stands for; any byte but the two tags is
    /// refused.
    pub open spec fn of_code(code: u8) -> Result<IdKind, IggyError> {
        if code == NUMERIC_KIND_CODE {
            Ok(IdKind::Numeric)
        } else if code == NAMED_KIND_CODE {
            Ok(IdKind::Named)
        } else {
            Err(IggyError::InvalidIdentifier)
        }
    }

    /// The tag byte of this kind.
    pub fn as_code(&self) -> (code: u8)
        ensures
            code == self.code(),
    {
        match self {
            IdKind::Numeric => NUMERIC_KIND_CODE,
            IdKind::Named => NAMED_KIND_CODE,
        }
    }

    /// Reads a tag byte.
    pub fn from_code(code: u8) -> (kind: Result<IdKind, IggyError>)
        ensures
            kind == IdKind::of_code(code),
    {
        if code == NUMERIC_KIND_CODE {
            Ok(IdKind::Numeric)
        } else if code == NAMED_KIND_CODE {
            Ok(IdKind::Named)
        } else {
            Err(IggyError::InvalidIdentifier)
        }
    }
}

impl Default for IdKind {
    fn default() -> (kind: IdKind)
        ensures
            kind == IdKind::Numeric,
    {
        IdKind::Numeric
    }
}

/// What an identifier is, as a mathematical value.
pub enum IdentifierView {
    /// The number itself.
    Numeric(u32),
    /// The bytes of the name.
    Named(Seq<u8>),
}

impl IdentifierView {
    /// The kind of the identifier.
    pub open spec fn kind(self) -> IdKind {
        match self {
            IdentifierView::Numeric(_) => IdKind::Numeric,
            IdentifierView::Named(_) => IdKind::Named,
        }
    }

    /// Whether the identifier can be written at all: the length of a name
    /// fits its length byte. Every `Identifier` meets this.
    pub open spec fn encodable(self) -> bool {
        match self {
            IdentifierView::Numeric(_) => true,
            IdentifierView::Named(name) => name.len() <= MAX_NAME_LENGTH,
        }
    }

    /// Whether the identifier obeys the rules on names: a name is not empty
    /// and has at most 255 bytes. Numbers are all allowed.
    pub open spec fn valid(self) -> bool {
        match self {
            IdentifierView::Numeric(_) => true,
            IdentifierView::Named(name) => 1 <= name.len() <= MAX_NAME_LENGTH,
        }
    }

    /// The number of bytes that the identifier takes on the wire.
    pub open spec fn size(self) -> nat {
        match self {
            IdentifierView::Numeric(_) => NUMERIC_SIZE as nat,
            IdentifierView::Named(name) => 2 + name.len(),
        }
    }

    /// The bytes of the identifier on the wire.
    pub open spec fn encode(self) -> Seq<u8> {
        match self {
            IdentifierView::Numeric(value) => seq![NUMERIC_KIND_CODE] + spec_u32_to_le_bytes(value),
            IdentifierView::Named(name) => seq![NAMED_KIND_CODE, name.len() as u8] + name,
        }
    }

    /// The identifier as text for display: a number in decimal, a name as
    /// the text that its bytes spell.
    pub open spec fn text(self) -> Seq<char> {
        match self {
            IdentifierView::Numeric(value) => decimal(value as nat),
            IdentifierView::Named(name) => name_text(name),
        }
    }

    /// The identifier that stands at the start of `bytes`, or the reason why
    /// there is none: no tag byte, an unknown tag, or fewer bytes than the
    /// tag and the length byte announce. Bytes after the identifier are not
    /// looked at, and an announced length of zero is accepted.
    pub open spec fn decode(bytes: Seq<u8>) -> Result<IdentifierView, IggyError> {
        if bytes.len() == 0 {
            Err(IggyError::InvalidIdentifier)
        } else {
            match IdKind::of_code(bytes[0]) {
                Err(e) => Err(e),
                Ok(IdKind::Numeric) => if bytes.len() < NUMERIC_SIZE {
                    Err(IggyError::InvalidIdentifier)
                } else {
                    Ok(
                        IdentifierView::Numeric(
                            spec_u32_from_le_bytes(bytes.subrange(1, NUMERIC_SIZE as int)),
                        ),
                    )
                },
                Ok(IdKind::Named) => if bytes.len() < 2 || bytes.len() < 2 + bytes[1] {
                    Err(IggyError::InvalidIdentifier)
                } else {
                    Ok(IdentifierView::Named(bytes.subrange(2, 2 + bytes[1] as int)))
                },
            }
        }
    }
}

#[derive(Debug, PartialEq, Eq)]
enum Repr {
    Numeric(u32),
    Named(Vec<u8>),
}

/// The name of a stream, a topic or a consumer: a number, or a byte string
/// of at most 255 bytes.
#[derive(Debug, PartialEq, Eq)]
pub struct Identifier {
    repr: Repr,
}

impl View for Identifier {
    type V = IdentifierView;

    closed spec fn view(&self) -> IdentifierView {
        match self.repr {
            Repr::Numeric(value) => IdentifierView::Numeric(value),
            Repr::Named(name) => IdentifierView::Named(name@),
        }
    }
}

impl Identifier {
    /// Every identifier can be written: a name never outgrows its length
    /// byte.
    #[verifier::type_invariant]
    pub closed spec fn well_formed(&self) -> bool {
        self@.encodable()
    }

    /// The identifier with the number `value`. Every number is accepted.
    pub fn numeric(value: u32) -> (id: Result<Identifier, IggyError>)
        ensures
            decoded(id) == Ok::<IdentifierView, IggyError>(
                IdentifierView::Numeric(value),
            ),
    {
        Ok(Identifier { repr: Repr::Numeric(value) })
    }

    /// The identifier with the name `value`, which must have between 1 and
    /// 255 bytes.
    pub fn named(value: &str) -> (id: Result<Identifier, IggyError>)
        ensures
            decoded(id) == if 1 <= value.spec_bytes().len() <= MAX_NAME_LENGTH {
                Ok::<IdentifierView, IggyError>(IdentifierView::Named(value.spec_bytes()))
            } else {
                Err(IggyError::InvalidIdentifier)
            },
    {
        let raw = value.as_bytes();
        if raw.len() == 0 || raw.len() > MAX_NAME_LENGTH {
            return Err(IggyError::InvalidIdentifier);
        }
        Ok(Identifier { repr: Repr::Named(slice_to_vec(raw)) })
    }

    /// The kind of this identifier.
    pub fn kind(&self) -> (kind: IdKind)
        ensures
            kind == self@.kind(),
    {
        match &self.repr {
            Repr::Numeric(_) => IdKind::Numeric,
            Repr::Named(_) => IdKind::Named,
        }
    }

    /// The number of a numeric identifier; a named one has none.
    pub fn get_u32_value(&self) -> (value: Result<u32, IggyError>)
        ensures
            value == match self@ {
                IdentifierView::Numeric(n) => Ok::<u32, IggyError>(n),
                IdentifierView::Named(_) => Err(IggyError::InvalidIdentifier),
            },
    {
        match &self.repr {
            Repr::Numeric(value) => Ok(*value),
            Repr::Named(_) => Err(IggyError::InvalidIdentifier),
        }
    }

    /// The identifier as text for display.
    pub fn to_string(&self) -> (text: String)
        ensures
            text@ == self@.text(),
    {
        match &self.repr {
            Repr::Numeric(value) => decimal_text(*value),
            Repr::Named(name) => name_to_text(name.as_slice()),
        }
    }

    /// Reads the identifier at the start of `bytes`.
    pub fn from_raw_bytes(bytes: &[u8]) -> (id: Result<Identifier, IggyError>)
        ensures
            decoded(id) == IdentifierView::decode(bytes@),
    {
        if bytes.len() == 0 {
            return Err(IggyError::InvalidIdentifier);
        }
        match IdKind::from_code(bytes[0]) {
            Err(e) => Err(e),
            Ok(IdKind::Numeric) => {
                if bytes.len() < NUMERIC_SIZE {
                    return Err(IggyError::InvalidIdentifier);
                }
                let value = u32_from_le_bytes(slice_subrange(bytes, 1, NUMERIC_SIZE));
                Ok(Identifier { repr: Repr::Numeric(value) })
            },
            Ok(IdKind::Named) => {
                if bytes.len() < 2 {
                    return Err(IggyError::InvalidIdentifier);
                }
                let length: usize = bytes[1] as usize;
                if bytes.len() - 2 < length {
                    return Err(IggyError::InvalidIdentifier);
                }
                let name = slice_to_vec(slice_subrange(bytes, 2, 2 + length));
                Ok(Identifier { repr: Repr::Named(name) })
            },
        }
    }
}

impl Sizeable for Identifier {
    open spec fn size_of(value: IdentifierView) -> nat {
        value.size()
    }

    /// The number of bytes that `to_bytes` writes, at most 257.
    fn get_size_bytes(&self) -> (size: IggyByteSize)
        ensures
            size@ == self@.size(),
            self@.encodable(),
    {
        proof {
            use_type_invariant(self);
        }
        match &self.repr {
            Repr::Numeric(_) => IggyByteSize::new(5),
            Repr::Named(name) => {
                let length: u64 = name.len() as u64;
                IggyByteSize::new(2 + length)
            },
        }
    }
}

impl Validatable<IggyError> for Identifier {
    open spec fn violation(value: IdentifierView) -> Option<IggyError> {
        if value.valid() {
            None
        } else {
            Some(IggyError::InvalidIdentifier)
        }
    }

    /// Checks the rules on names. Decoding accepts a name of no bytes; this
    /// is where it is refused.
    fn validate(&self) -> (outcome: Result<(), IggyError>)
        ensures
            outcome == if self@.valid() {
                Ok::<(), IggyError>(())
            } else {
                Err(IggyError::InvalidIdentifier)
            },
    {
        match &self.repr {
            Repr::Numeric(_) => Ok(()),
            Repr::Named(name) => {
                if name.len() == 0 || name.len() > MAX_NAME_LENGTH {
                    Err(IggyError::InvalidIdentifier)
                } else {
                    Ok(())
                }
            },
        }
    }
}

impl BytesSerializable for Identifier {
    open spec fn encoding(value: IdentifierView) -> Seq<u8> {
        value.encode()
    }

    open spec fn decoding(bytes: Seq<u8>) -> Result<IdentifierView, IggyError> {
        IdentifierView::decode(bytes)
    }

    open spec fn round_trips(value: IdentifierView) -> bool {
        value.encodable()
    }

    /// The identifier on the wire.
    fn to_bytes(&self) -> (bytes: Bytes)
        ensures
            bytes_seq(bytes) == self@.encode(),
            self@.encodable(),
    {
        proof {
            use_type_invariant(self);
            lemma_auto_spec_u32_to_from_le_bytes();
        }
        match &self.repr {
            Repr::Numeric(value) => {
                let mut buf = BytesMut::with_capacity(NUMERIC_SIZE);
                put_u8(&mut buf, NUMERIC_KIND_CODE);
                put_u32_le(&mut buf, *value);
                buf.freeze()
            },
            Repr::Named(name) => {
                let mut buf = BytesMut::with_capacity(2 + name.len());
                put_u8(&mut buf, NAMED_KIND_CODE);
                put_u8(&mut buf, name.len() as u8);
                put_slice(&mut buf, name.as_slice());
                buf.freeze()
            },
        }
    }

    /// Reads the identifier at the start of a buffer.
    fn from_bytes(bytes: Bytes) -> (id: Result<Identifier, IggyError>)
        ensures
            decoded(id) == IdentifierView::decode(bytes_seq(bytes)),
    {
        Identifier::from_raw_bytes(as_slice(&bytes))
    }

    proof fn round_trip(value: IdentifierView) {
        lemma_identifier_round_trip(value, Seq::<u8>::empty());
        assert(value.encode() + Seq::<u8>::empty() =~= value.encode());
    }
}

impl Clone for Identifier {
    fn clone(&self) -> (copy: Identifier)
        ensures
            copy@ == self@,
    {
        proof {
            use_type_invariant(self);
        }
        match &self.repr {
            Repr::Numeric(value) => Identifier { repr: Repr::Numeric(*value) },
            Repr::Named(name) => Identifier { repr: Repr::Named(slice_to_vec(name.as_slice())) },
        }
    }
}

impl Default for Identifier {
    fn default() -> (id: Identifier)
        ensures
            id@ == IdentifierView::Numeric(0),
    {
        Identifier { repr: Repr::Numeric(0) }
    }
}

/// An encoded identifier has the length that `size` gives, tag and length
/// byte included.
pub proof fn lemma_identifier_encoded_size(id: IdentifierView)
    ensures
        id.encode().len() == id.size(),
{
    lemma_auto_spec_u32_to_from_le_bytes();
}

/// Decoding gives back every identifier that was encoded, numeric or named,
/// whatever bytes follow it in the buffer.
pub proof fn lemma_identifier_round_trip(id: IdentifierView, rest: Seq<u8>)
    requires
        id.encodable(),
    ensures
        IdentifierView::decode(id.encode() + rest) == Ok::<IdentifierView, IggyError>(id),
{
    lemma_auto_spec_u32_to_from_le_bytes();
    let bytes = id.encode() + rest;
    match id {
        IdentifierView::Numeric(value) => {
            assert(bytes[0] == NUMERIC_KIND_CODE);
            assert(bytes.subrange(1, NUMERIC_SIZE as int) =~= spec_u32_to_le_bytes(value));
        },
        IdentifierView::Named(name) => {
            assert(bytes[0] == NAMED_KIND_CODE);
            assert(bytes[1] == name.len());
            assert(bytes.subrange(2, 2 + bytes[1] as int) =~= name);
        },
    }
}

/// Decoding reads no byte past the identifier: what it finds are exactly the
/// first `size` bytes of the buffer, and those bytes alone decode to it.
pub proof fn lemma_identifier_decode_is_prefix(bytes: Seq<u8>)
    requires
        IdentifierView::decode(bytes) is Ok,
    ensures
        ({
            let id = IdentifierView::decode(bytes)->Ok_0;
            &&& id.encodable()
            &&& id.size() <= bytes.len()
            &&& id.encode() == bytes.subrange(0, id.size() as int)
            &&& IdentifierView::decode(bytes.subrange(0, id.size() as int)) == Ok::<
                IdentifierView,
                IggyError,
            >(id)
        }),
{
    lemma_auto_spec_u32_to_from_le_bytes();
    let id = IdentifierView::decode(bytes)->Ok_0;
    lemma_identifier_round_trip(id, Seq::<u8>::empty());
    assert(id.encode() + Seq::<u8>::empty() =~= id.encode());
    match id {
        IdentifierView::Numeric(value) => {
            assert(bytes.subrange(1, NUMERIC_SIZE as int).len() == 4);
            assert(id.encode() =~= bytes.subrange(0, id.size() as int));
        },
        IdentifierView::Named(name) => {
            assert(id.encode() =~= bytes.subrange(0, id.size() as int));
        },
    }
}

} // verus!
