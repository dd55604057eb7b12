//! Consumer references: an identifier together with the word of whether it
//! names a single consumer or a consumer group.
//!
//! On the wire a consumer is one byte of kind followed by its identifier.

use crate::buffer::{as_slice, bytes_seq, put_slice, put_u8, slice_from};
use crate::byte_size::IggyByteSize;
use crate::command::{decoded, BytesSerializable, Sizeable};
use crate::error::IggyError;
use crate::identifier::{
    lemma_identifier_decode_is_prefix, lemma_identifier_encoded_size,
    lemma_identifier_round_trip, Identifier, IdentifierView,
};
use crate::text::join_pair;
use bytes::{Bytes, BytesMut};
use vstd::prelude::*;

verus! {

/// The kind code of a single consumer.
pub const CONSUMER_KIND_CODE: u8 = 1;

/// The kind code of a consumer group.
pub const CONSUMER_GROUP_KIND_CODE: u8 = 2;

/// Whether a consumer reference names one consumer or a group of them.
#[derive(Clone, Copy, Debug, PartialEq, Eq, Structural)]
pub enum ConsumerKind {
    /// A single consumer.
    Consumer,
    /// A consumer group.
    ConsumerGroup,
}

impl ConsumerKind {
    /// The code byte that stands for this kind.
    pub open spec fn code(self) -> u8 {
        match self {
            ConsumerKind::Consumer => CONSUMER_KIND_CODE,
            ConsumerKind::ConsumerGroup => CONSUMER_GROUP_KIND_CODE,
        }
    }

    /// The kind that a code byte stands for; any byte but the two codes is
    /// refused.
    pub open spec fn of_code(code: u8) -> Result<ConsumerKind, IggyError> {
        if code == CONSUMER_KIND_CODE {
            Ok(ConsumerKind::Consumer)
        } else if code == CONSUMER_GROUP_KIND_CODE {
            Ok(ConsumerKind::ConsumerGroup)
        } else {
            Err(IggyError::InvalidCommand)
        }
    }

    /// The word for this kind in displayed text.
    pub open spec fn text(self) -> Seq<char> {
        match self {
            ConsumerKind::Consumer => "consumer"@,
            ConsumerKind::ConsumerGroup => "consumer_group"@,
        }
    }

    /// The word for this kind in displayed text.
    pub fn as_str(&self) -> (text: &'static str)
        ensures
            text@ == self.text(),
    {
        match self {
            ConsumerKind::Consumer => "consumer",
            ConsumerKind::ConsumerGroup => "consumer_group",
        }
    }

    /// The code byte of this kind.
    pub fn as_code(&self) -> (code: u8)
        ensures
            code == self.code(),
    {
        match self {
            ConsumerKind::Consumer => CONSUMER_KIND_CODE,
            ConsumerKind::ConsumerGroup => CONSUMER_GROUP_KIND_CODE,
        }
    }

    /// Reads a code byte.
    pub fn from_code(code: u8) -> (kind: Result<ConsumerKind, IggyError>)
        ensures
            kind == ConsumerKind::of_code(code),
    {
        if code == CONSUMER_KIND_CODE {
            Ok(ConsumerKind::Consumer)
        } else if code == CONSUMER_GROUP_KIND_CODE {
            Ok(ConsumerKind::ConsumerGroup)
        } else {
            Err(IggyError::InvalidCommand)
        }
    }
}

impl Default for ConsumerKind {
    fn default() -> (kind: ConsumerKind)
        ensures
            kind == ConsumerKind::Consumer,
    {
        ConsumerKind::Consumer
    }
}

/// What a consumer reference is, as a mathematical value.
pub struct ConsumerView {
    pub kind: ConsumerKind,
    pub id: IdentifierView,
}

impl ConsumerView {
    /// Whether the reference can be written: its identifier can.
    pub open spec fn encodable(self) -> bool {
        self.id.encodable()
    }

    /// The number of bytes that the reference takes on the wire.
    pub open spec fn size(self) -> nat {
        1 + self.id.size()
    }

    /// The bytes of the reference on the wire.
    pub open spec fn encode(self) -> Seq<u8> {
        seq![self.kind.code()] + self.id.encode()
    }

    /// The reference as text for display: the kind and the identifier with
    /// a `|` between them.
    pub open spec fn text(self) -> Seq<char> {
        self.kind.text() + "|"@ + self.id.text()
    }

    /// The consumer reference that stands at the start of `bytes`, or the
    /// reason why there is none: no kind byte or an unknown one, or no
    /// identifier behind it.
    pub open spec fn decode(bytes: Seq<u8>) -> Result<ConsumerView, IggyError> {
        if bytes.len() == 0 {
            Err(IggyError::InvalidCommand)
        } else {
            match ConsumerKind::of_code(bytes[0]) {
                Err(e) => Err(e),
                Ok(kind) => match IdentifierView::decode(bytes.skip(1)) {
                    Err(e) => Err(e),
                    Ok(id) => Ok(ConsumerView { kind, id }),
                },
            }
        }
    }
}

/// A reference to a single consumer or to a consumer group.
#[derive(Debug, PartialEq, Eq)]
pub struct Consumer {
    /// Whether `id` names one consumer or a group.
    pub kind: ConsumerKind,
    /// The consumer's or the group's identifier.
    pub id: Identifier,
}

impl View for Consumer {
    type V = ConsumerView;

    open spec fn view(&self) -> ConsumerView {
        ConsumerView { kind: self.kind, id: self.id@ }
    }
}

impl Consumer {
    /// A reference to the single consumer `id`.
    pub fn new(id: Identifier) -> (consumer: Consumer)
        ensures
            consumer@ == (ConsumerView { kind: ConsumerKind::Consumer, id: id@ }),
    {
        Consumer { kind: ConsumerKind::Consumer, id }
    }

    /// A reference to the consumer group `id`.
    pub fn group(id: Identifier) -> (consumer: Consumer)
        ensures
            consumer@ == (ConsumerView { kind: ConsumerKind::ConsumerGroup, id: id@ }),
    {
        Consumer { kind: ConsumerKind::ConsumerGroup, id }
    }

    /// The reference as text for display.
    pub fn to_string(&self) -> (text: String)
        ensures
            text@ == self@.text(),
    {
        let id = self.id.to_string();
        join_pair(self.kind.as_str(), id.as_str())
    }

}

impl Sizeable for Consumer {
    open spec fn size_of(value: ConsumerView) -> nat {
        value.size()
    }

    /// The number of bytes that `to_bytes` writes, at most 258.
    fn get_size_bytes(&self) -> (size: IggyByteSize)
        ensures
            size@ == self@.size(),
            self@.encodable(),
    {
        let id_size = self.id.get_size_bytes().as_bytes_u64();
        IggyByteSize::new(1 + id_size)
    }
}

impl BytesSerializable for Consumer {
    open spec fn encoding(value: ConsumerView) -> Seq<u8> {
        value.encode()
    }

    open spec fn decoding(bytes: Seq<u8>) -> Result<ConsumerView, IggyError> {
        ConsumerView::decode(bytes)
    }

    open spec fn round_trips(value: ConsumerView) -> bool {
        value.encodable()
    }

    /// The consumer reference on the wire.
    fn to_bytes(&self) -> (bytes: Bytes)
        ensures
            bytes_seq(bytes) == self@.encode(),
            self@.encodable(),
    {
        let id_bytes = self.id.to_bytes();
        proof {
            lemma_identifier_encoded_size(self.id@);
        }
        let mut buf = BytesMut::with_capacity(1 + id_bytes.len());
        put_u8(&mut buf, self.kind.as_code());
        put_slice(&mut buf, as_slice(&id_bytes));
        buf.freeze()
    }

    /// Reads the consumer reference at the start of a buffer.
    fn from_bytes(bytes: Bytes) -> (consumer: Result<Consumer, IggyError>)
        ensures
            decoded(consumer) == ConsumerView::decode(bytes_seq(bytes)),
    {
        if bytes.len() == 0 {
            return Err(IggyError::InvalidCommand);
        }
        let kind = match ConsumerKind::from_code(as_slice(&bytes)[0]) {
            Ok(kind) => kind,
            Err(e) => {
                return Err(e);
            },
        };
        match Identifier::from_bytes(slice_from(&bytes, 1)) {
            Ok(id) => Ok(Consumer { kind, id }),
            Err(e) => Err(e),
        }
    }

    proof fn round_trip(value: ConsumerView) {
        lemma_consumer_round_trip(value, Seq::<u8>::empty());
        assert(value.encode() + Seq::<u8>::empty() =~= value.encode());
    }
}

impl Clone for Consumer {
    fn clone(&self) -> (copy: Consumer)
        ensures
            copy@ == self@,
    {
        Consumer { kind: self.kind, id: self.id.clone() }
    }
}

impl Default for Consumer {
    fn default() -> (consumer: Consumer)
        ensures
            consumer@ == (ConsumerView {
                kind: ConsumerKind::Consumer,
                id: IdentifierView::Numeric(0),
            }),
    {
        Consumer { kind: ConsumerKind::default(), id: Identifier::default() }
    }
}

/// An encoded consumer reference has the length that `size` gives.
pub proof fn lemma_consumer_encoded_size(consumer: ConsumerView)
    ensures
        consumer.encode().len() == consumer.size(),
{
    lemma_identifier_encoded_size(consumer.id);
}

/// Decoding gives back every consumer reference that was encoded, of either
/// kind, whatever bytes follow it in the buffer.
pub proof fn lemma_consumer_round_trip(consumer: ConsumerView, rest: Seq<u8>)
    requires
        consumer.encodable(),
    ensures
        ConsumerView::decode(consumer.encode() + rest) == Ok::<ConsumerView, IggyError>(consumer),
{
    let bytes = consumer.encode() + rest;
    assert(bytes[0] == consumer.kind.code());
    assert(bytes.skip(1) =~= consumer.id.encode() + rest);
    lemma_identifier_round_trip(consumer.id, rest);
}

/// Decoding reads no byte past the consumer reference: what it finds are
/// exactly the first `size` bytes of the buffer.
pub proof fn lemma_consumer_decode_is_prefix(bytes: Seq<u8>)
    requires
        ConsumerView::decode(bytes) is Ok,
    ensures
        ({
            let consumer = ConsumerView::decode(bytes)->Ok_0;
            &&& consumer.encodable()
            &&& consumer.size() <= bytes.len()
            &&& consumer.encode() == bytes.subrange(0, consumer.size() as int)
        }),
{
    let consumer = ConsumerView::decode(bytes)->Ok_0;
    lemma_identifier_decode_is_prefix(bytes.skip(1));
    assert(consumer.encode() =~= bytes.subrange(0, consumer.size() as int));
}

} // verus!
