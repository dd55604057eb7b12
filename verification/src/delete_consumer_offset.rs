//! The command that deletes the offset a consumer has stored for a
//! partition.
//!
//! On the wire the command is its consumer reference, the stream identifier,
//! the topic identifier, and four bytes of partition number, least
//! significant first. A partition number of zero on the wire means that no
//! partition is given, so a command that names partition zero reads back as
//! one that names none.

use crate::buffer::{as_slice, bytes_seq, put_slice, put_u32_le, slice_from};
use crate::byte_size::IggyByteSize;
use crate::command::{decoded, BytesSerializable, Command, Sizeable, Validatable};
use crate::consumer::{
    lemma_consumer_decode_is_prefix, lemma_consumer_encoded_size, lemma_consumer_round_trip,
    Consumer, ConsumerKind, ConsumerView,
};
use crate::error::IggyError;
use crate::identifier::{
    lemma_identifier_decode_is_prefix, lemma_identifier_encoded_size,
    lemma_identifier_round_trip, Identifier, IdentifierView,
};
use crate::text::{decimal, decimal_text, join_fields};
use bytes::{Bytes, BytesMut};
use vstd::bytes::{
    lemma_auto_spec_u32_to_from_le_bytes, spec_u32_from_le_bytes, spec_u32_to_le_bytes,
    u32_from_le_bytes,
};
use vstd::prelude::*;
use vstd::slice::slice_subrange;

verus! {

/// The code by which a receiver tells this command from every other.
pub const DELETE_CONSUMER_OFFSET_CODE: u32 = 122;

/// The shortest frame that is looked at: anything shorter is refused before
/// any field is read.
pub const MIN_COMMAND_LENGTH: usize = 15;

/// The partition number that stands on the wire for "no partition".
pub const NO_PARTITION: u32 = 0;

/// The partition number written for an optional partition.
pub open spec fn partition_to_wire(partition_id: Option<u32>) -> u32 {
    match partition_id {
        Some(partition) => partition,
        None => NO_PARTITION,
    }
}

/// The optional partition that a number on the wire stands for.
pub open spec fn partition_from_wire(raw: u32) -> Option<u32> {
    if raw == NO_PARTITION {
        None
    } else {
        Some(raw)
    }
}

/// What the command is, as a mathematical value.
pub struct DeleteConsumerOffsetView {
    pub consumer: ConsumerView,
    pub stream_id: IdentifierView,
    pub topic_id: IdentifierView,
    pub partition_id: Option<u32>,
}

impl DeleteConsumerOffsetView {
    /// Whether the command can be written: its consumer and both identifiers
    /// can.
    pub open spec fn encodable(self) -> bool {
        &&& self.consumer.encodable()
        &&& self.stream_id.encodable()
        &&& self.topic_id.encodable()
    }

    /// The number of bytes that the command takes on the wire.
    pub open spec fn size(self) -> nat {
        self.consumer.size() + self.stream_id.size() + self.topic_id.size() + 4
    }

    /// The same command with another partition.
    pub open spec fn with_partition(self, partition_id: Option<u32>) -> DeleteConsumerOffsetView {
        DeleteConsumerOffsetView { partition_id, ..self }
    }

    /// The bytes of the command on the wire.
    pub open spec fn encode(self) -> Seq<u8> {
        self.consumer.encode() + self.stream_id.encode() + self.topic_id.encode()
            + spec_u32_to_le_bytes(partition_to_wire(self.partition_id))
    }

    /// The command as text for display: consumer, stream, topic and
    /// partition with a `|` between each two. The partition is shown as it
    /// stands on the wire, so a command without one shows `0`.
    pub open spec fn text(self) -> Seq<char> {
        self.consumer.text() + "|"@ + self.stream_id.text() + "|"@ + self.topic_id.text() + "|"@
            + decimal(partition_to_wire(self.partition_id) as nat)
    }

    /// The command that `bytes` holds, or the reason why they hold none. A
    /// frame of fewer than 15 bytes is refused as a whole. Otherwise the
    /// fields are read one after the other, each starting where the one
    /// before it ended, and the first that fails gives the error; a frame
    /// that ends before the four bytes of the partition is a bad number.
    /// Bytes after the partition are not looked at.
    pub open spec fn decode(bytes: Seq<u8>) -> Result<DeleteConsumerOffsetView, IggyError> {
        if bytes.len() < MIN_COMMAND_LENGTH {
            Err(IggyError::InvalidCommand)
        } else {
            match ConsumerView::decode(bytes) {
                Err(e) => Err(e),
                Ok(consumer) => {
                    let stream_at = consumer.size() as int;
                    match IdentifierView::decode(bytes.skip(stream_at)) {
                        Err(e) => Err(e),
                        Ok(stream_id) => {
                            let topic_at = stream_at + stream_id.size();
                            match IdentifierView::decode(bytes.skip(topic_at)) {
                                Err(e) => Err(e),
                                Ok(topic_id) => {
                                    let partition_at = topic_at + topic_id.size();
                                    if bytes.len() < partition_at + 4 {
                                        Err(IggyError::InvalidNumberEncoding)
                                    } else {
                                        Ok(
                                            DeleteConsumerOffsetView {
                                                consumer,
                                                stream_id,
                                                topic_id,
                                                partition_id: partition_from_wire(
                                                    spec_u32_from_le_bytes(
                                                        bytes.subrange(
                                                            partition_at,
                                                            partition_at + 4,
                                                        ),
                                                    ),
                                                ),
                                            },
                                        )
                                    }
                                },
                            }
                        },
                    }
                },
            }
        }
    }
}

/// Deletes the offset that a consumer has stored for a partition of a topic.
#[derive(Debug, PartialEq, Eq)]
pub struct DeleteConsumerOffset {
    /// The consumer whose offset is deleted: a single consumer or a group.
    pub consumer: Consumer,
    /// The stream, by number or by name.
    pub stream_id: Identifier,
    /// The topic, by number or by name.
    pub topic_id: Identifier,
    /// The partition that the offset is stored for. A single consumer names
    /// one; for a consumer group it is left out.
    pub partition_id: Option<u32>,
}

impl View for DeleteConsumerOffset {
    type V = DeleteConsumerOffsetView;

    open spec fn view(&self) -> DeleteConsumerOffsetView {
        DeleteConsumerOffsetView {
            consumer: self.consumer@,
            stream_id: self.stream_id@,
            topic_id: self.topic_id@,
            partition_id: self.partition_id,
        }
    }
}

impl DeleteConsumerOffset {
    /// The command as text for display.
    pub fn to_string(&self) -> (text: String)
        ensures
            text@ == self@.text(),
    {
        let consumer = self.consumer.to_string();
        let stream_id = self.stream_id.to_string();
        let topic_id = self.topic_id.to_string();
        let partition_id = match self.partition_id {
            Some(partition_id) => decimal_text(partition_id),
            None => decimal_text(NO_PARTITION),
        };
        join_fields(
            consumer.as_str(),
            stream_id.as_str(),
            topic_id.as_str(),
            partition_id.as_str(),
        )
    }
}

impl Command for DeleteConsumerOffset {
    open spec fn opcode() -> u32 {
        DELETE_CONSUMER_OFFSET_CODE
    }

    /// The command's code, the same for every value.
    fn code(&self) -> (code: u32)
        ensures
            code == DELETE_CONSUMER_OFFSET_CODE,
    {
        DELETE_CONSUMER_OFFSET_CODE
    }
}

impl Validatable<IggyError> for DeleteConsumerOffset {
    /// No rule spans several fields yet, so no command is in violation.
    open spec fn violation(value: DeleteConsumerOffsetView) -> Option<IggyError> {
        None
    }

    /// Checks the rules that span several fields. There is none yet, so
    /// every command passes; the rules on a single identifier are checked
    /// by the identifier's own `validate`.
    fn validate(&self) -> (outcome: Result<(), IggyError>)
        ensures
            outcome == Ok::<(), IggyError>(()),
    {
        Ok(())
    }
}

impl Sizeable for DeleteConsumerOffset {
    open spec fn size_of(value: DeleteConsumerOffsetView) -> nat {
        value.size()
    }

    /// The number of bytes that `to_bytes` writes.
    fn get_size_bytes(&self) -> (size: IggyByteSize)
        ensures
            size@ == self@.size(),
            self@.encodable(),
    {
        let consumer = self.consumer.get_size_bytes().as_bytes_u64();
        let stream_id = self.stream_id.get_size_bytes().as_bytes_u64();
        let topic_id = self.topic_id.get_size_bytes().as_bytes_u64();
        IggyByteSize::new(consumer + stream_id + topic_id + 4)
    }
}

impl BytesSerializable for DeleteConsumerOffset {
    open spec fn encoding(value: DeleteConsumerOffsetView) -> Seq<u8> {
        value.encode()
    }

    open spec fn decoding(bytes: Seq<u8>) -> Result<DeleteConsumerOffsetView, IggyError> {
        DeleteConsumerOffsetView::decode(bytes)
    }

    /// A command comes back as it went if it can be written, names no
    /// partition or one that is not zero, and takes the 15 bytes below which
    /// no frame is read.
    open spec fn round_trips(value: DeleteConsumerOffsetView) -> bool {
        &&& value.encodable()
        &&& value.partition_id != Some(NO_PARTITION)
        &&& value.size() >= MIN_COMMAND_LENGTH
    }

    /// The command on the wire.
    fn to_bytes(&self) -> (bytes: Bytes)
        ensures
            bytes_seq(bytes) == self@.encode(),
            bytes_seq(bytes).len() == self@.size(),
            self@.encodable(),
    {
        let consumer_bytes = self.consumer.to_bytes();
        let stream_id_bytes = self.stream_id.to_bytes();
        let topic_id_bytes = self.topic_id.to_bytes();
        proof {
            lemma_consumer_encoded_size(self.consumer@);
            lemma_identifier_encoded_size(self.stream_id@);
            lemma_identifier_encoded_size(self.topic_id@);
            lemma_auto_spec_u32_to_from_le_bytes();
        }
        let mut buf = BytesMut::with_capacity(
            12 + consumer_bytes.len() + stream_id_bytes.len() + topic_id_bytes.len(),
        );
        put_slice(&mut buf, as_slice(&consumer_bytes));
        put_slice(&mut buf, as_slice(&stream_id_bytes));
        put_slice(&mut buf, as_slice(&topic_id_bytes));
        match self.partition_id {
            Some(partition_id) => put_u32_le(&mut buf, partition_id),
            None => put_u32_le(&mut buf, NO_PARTITION),
        }
        buf.freeze()
    }

    /// Reads a command from a frame. A frame of fewer than 15 bytes is
    /// refused at once; a longer one is read field by field.
    fn from_bytes(bytes: Bytes) -> (command: Result<DeleteConsumerOffset, IggyError>)
        ensures
            decoded(command) == DeleteConsumerOffsetView::decode(bytes_seq(bytes)),
            bytes_seq(bytes).len() < MIN_COMMAND_LENGTH ==> decoded(command) == Err::<
                DeleteConsumerOffsetView,
                IggyError,
            >(IggyError::InvalidCommand),
    {
        let length = bytes.len();
        if length < MIN_COMMAND_LENGTH {
            return Err(IggyError::InvalidCommand);
        }
        let raw = as_slice(&bytes);
        let ghost frame = bytes_seq(bytes);

        let consumer_kind = match ConsumerKind::from_code(raw[0]) {
            Ok(kind) => kind,
            Err(e) => {
                return Err(e);
            },
        };
        let consumer_id = match Identifier::from_bytes(slice_from(&bytes, 1)) {
            Ok(id) => id,
            Err(e) => {
                return Err(e);
            },
        };
        proof {
            lemma_consumer_decode_is_prefix(frame);
        }
        let mut position: usize = 1 + consumer_id.get_size_bytes().as_bytes_usize();
        let consumer = Consumer { kind: consumer_kind, id: consumer_id };

        let stream_id = match Identifier::from_bytes(slice_from(&bytes, position)) {
            Ok(id) => id,
            Err(e) => {
                return Err(e);
            },
        };
        proof {
            lemma_identifier_decode_is_prefix(frame.skip(position as int));
        }
        position += stream_id.get_size_bytes().as_bytes_usize();

        let topic_id = match Identifier::from_bytes(slice_from(&bytes, position)) {
            Ok(id) => id,
            Err(e) => {
                return Err(e);
            },
        };
        proof {
            lemma_identifier_decode_is_prefix(frame.skip(position as int));
        }
        position += topic_id.get_size_bytes().as_bytes_usize();

        if length - position < 4 {
            return Err(IggyError::InvalidNumberEncoding);
        }
        let partition_id = u32_from_le_bytes(slice_subrange(raw, position, position + 4));
        let partition_id = if partition_id == NO_PARTITION {
            None
        } else {
            Some(partition_id)
        };
        Ok(DeleteConsumerOffset { consumer, stream_id, topic_id, partition_id })
    }

    proof fn round_trip(value: DeleteConsumerOffsetView) {
        lemma_command_round_trip(value, Seq::<u8>::empty());
        assert(value.encode() + Seq::<u8>::empty() =~= value.encode());
    }
}

impl Clone for DeleteConsumerOffset {
    fn clone(&self) -> (copy: DeleteConsumerOffset)
        ensures
            copy@ == self@,
    {
        DeleteConsumerOffset {
            consumer: self.consumer.clone(),
            stream_id: self.stream_id.clone(),
            topic_id: self.topic_id.clone(),
            partition_id: self.partition_id,
        }
    }
}

impl Default for DeleteConsumerOffset {
    fn default() -> (command: DeleteConsumerOffset)
        ensures
            command@ == (DeleteConsumerOffsetView {
                consumer: ConsumerView {
                    kind: ConsumerKind::Consumer,
                    id: IdentifierView::Numeric(0),
                },
                stream_id: IdentifierView::Numeric(0),
                topic_id: IdentifierView::Numeric(0),
                partition_id: Some(1u32),
            }),
    {
        DeleteConsumerOffset {
            consumer: Consumer::default(),
            stream_id: Identifier::default(),
            topic_id: Identifier::default(),
            partition_id: Some(1),
        }
    }
}

/// An encoded command is as long as its three encoded fields together, and
/// four bytes more; those last four bytes are the partition number.
pub proof fn lemma_command_encoded_size(command: DeleteConsumerOffsetView)
    ensures
        command.encode().len() == command.size(),
        command.encode().len() == command.consumer.encode().len()
            + command.stream_id.encode().len() + command.topic_id.encode().len() + 4,
        command.encode().subrange(command.size() - 4, command.size() as int)
            == spec_u32_to_le_bytes(partition_to_wire(command.partition_id)),
        spec_u32_from_le_bytes(command.encode().subrange(command.size() - 4, command.size() as int))
            == partition_to_wire(command.partition_id),
{
    lemma_consumer_encoded_size(command.consumer);
    lemma_identifier_encoded_size(command.stream_id);
    lemma_identifier_encoded_size(command.topic_id);
    lemma_auto_spec_u32_to_from_le_bytes();
    assert(command.encode().subrange(command.size() - 4, command.size() as int)
        =~= spec_u32_to_le_bytes(partition_to_wire(command.partition_id)));
}

/// Decoding an encoded command gives its consumer and both identifiers back
/// unchanged, and for the partition what its number on the wire stands for,
/// whatever bytes follow the command. This holds wherever the frame, the
/// command and what follows it, reaches the 15 bytes below which no frame is
/// read.
pub proof fn lemma_command_decode_of_encode(command: DeleteConsumerOffsetView, rest: Seq<u8>)
    requires
        command.encodable(),
        command.size() + rest.len() >= MIN_COMMAND_LENGTH,
    ensures
        DeleteConsumerOffsetView::decode(command.encode() + rest) == Ok::<
            DeleteConsumerOffsetView,
            IggyError,
        >(command.with_partition(partition_from_wire(partition_to_wire(command.partition_id)))),
{
    lemma_consumer_encoded_size(command.consumer);
    lemma_identifier_encoded_size(command.stream_id);
    lemma_identifier_encoded_size(command.topic_id);
    lemma_auto_spec_u32_to_from_le_bytes();
    let partition = spec_u32_to_le_bytes(partition_to_wire(command.partition_id));
    let bytes = command.encode() + rest;
    let stream_at = command.consumer.size() as int;
    let topic_at = stream_at + command.stream_id.size();
    let partition_at = topic_at + command.topic_id.size();

    assert(bytes =~= command.consumer.encode() + (command.stream_id.encode()
        + command.topic_id.encode() + partition + rest));
    lemma_consumer_round_trip(
        command.consumer,
        command.stream_id.encode() + command.topic_id.encode() + partition + rest,
    );
    assert(bytes.skip(stream_at) =~= command.stream_id.encode() + (command.topic_id.encode()
        + partition + rest));
    lemma_identifier_round_trip(command.stream_id, command.topic_id.encode() + partition + rest);
    assert(bytes.skip(topic_at) =~= command.topic_id.encode() + (partition + rest));
    lemma_identifier_round_trip(command.topic_id, partition + rest);
    assert(bytes.subrange(partition_at, partition_at + 4) =~= partition);
}

/// Round trip: decoding gives back every command that was encoded, with no
/// partition or with a partition of 1 or more, whatever bytes follow it. The
/// frame, the command and what follows it, must reach the 15 bytes below
/// which no frame is read: the shortest command of all, with three names of
/// one byte each, takes 14 bytes and is refused when it stands alone.
pub proof fn lemma_command_round_trip(command: DeleteConsumerOffsetView, rest: Seq<u8>)
    requires
        command.encodable(),
        command.partition_id != Some(NO_PARTITION),
        command.size() + rest.len() >= MIN_COMMAND_LENGTH,
    ensures
        DeleteConsumerOffsetView::decode(command.encode() + rest) == Ok::<
            DeleteConsumerOffsetView,
            IggyError,
        >(command),
{
    lemma_command_decode_of_encode(command, rest);
}

/// Partition zero cannot be told from no partition: the two commands have
/// the same bytes, and those bytes decode to the command with no partition.
pub proof fn lemma_partition_zero_reads_as_none(command: DeleteConsumerOffsetView)
    ensures
        command.with_partition(Some(NO_PARTITION)).encode() == command.with_partition(
            None,
        ).encode(),
        command.encodable() && command.size() >= MIN_COMMAND_LENGTH ==> {
            &&& DeleteConsumerOffsetView::decode(
                command.with_partition(Some(NO_PARTITION)).encode(),
            ) == Ok::<DeleteConsumerOffsetView, IggyError>(command.with_partition(None))
            &&& DeleteConsumerOffsetView::decode(command.with_partition(None).encode()) == Ok::<
                DeleteConsumerOffsetView,
                IggyError,
            >(command.with_partition(None))
        },
{
    if command.encodable() && command.size() >= MIN_COMMAND_LENGTH {
        let zero = command.with_partition(Some(NO_PARTITION));
        let none = command.with_partition(None);
        lemma_command_decode_of_encode(zero, Seq::<u8>::empty());
        lemma_command_decode_of_encode(none, Seq::<u8>::empty());
        assert(zero.encode() + Seq::<u8>::empty() =~= zero.encode());
        assert(none.encode() + Seq::<u8>::empty() =~= none.encode());
    }
}

/// A frame of fewer than 15 bytes is refused as an invalid command, whatever
/// it holds.
pub proof fn lemma_short_frame_is_refused(bytes: Seq<u8>)
    requires
        bytes.len() < MIN_COMMAND_LENGTH,
    ensures
        DeleteConsumerOffsetView::decode(bytes) == Err::<DeleteConsumerOffsetView, IggyError>(
            IggyError::InvalidCommand,
        ),
{
}

} // verus!
