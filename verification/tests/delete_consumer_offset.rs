use bytes::{BufMut, Bytes, BytesMut};
use iggy_protocol::{
    BytesSerializable, Command, Consumer, ConsumerKind, DeleteConsumerOffset, Identifier,
    IggyError, Sizeable, Validatable, DELETE_CONSUMER_OFFSET_CODE,
};

fn numeric_command(partition_id: Option<u32>) -> DeleteConsumerOffset {
    DeleteConsumerOffset {
        consumer: Consumer::new(Identifier::numeric(1).unwrap()),
        stream_id: Identifier::numeric(2).unwrap(),
        topic_id: Identifier::numeric(3).unwrap(),
        partition_id,
    }
}

#[test]
fn should_be_serialized_as_bytes() {
    let command = DeleteConsumerOffset {
        consumer: Consumer::new(Identifier::numeric(1).unwrap()),
        stream_id: Identifier::numeric(2).unwrap(),
        topic_id: Identifier::numeric(3).unwrap(),
        partition_id: Some(4),
    };

    let bytes = command.to_bytes();
    let mut position = 0;
    let consumer_kind = ConsumerKind::from_code(bytes[0]).unwrap();
    let consumer_id = Identifier::from_bytes(bytes.slice(1..)).unwrap();
    position += 1 + consumer_id.get_size_bytes().as_bytes_usize();
    let consumer = Consumer {
        kind: consumer_kind,
        id: consumer_id,
    };
    let stream_id = Identifier::from_bytes(bytes.slice(position..)).unwrap();
    position += stream_id.get_size_bytes().as_bytes_usize();
    let topic_id = Identifier::from_bytes(bytes.slice(position..)).unwrap();
    position += topic_id.get_size_bytes().as_bytes_usize();
    let partition_id = u32::from_le_bytes(bytes[position..position + 4].try_into().unwrap());

    assert!(!bytes.is_empty());
    assert_eq!(consumer, command.consumer);
    assert_eq!(stream_id, command.stream_id);
    assert_eq!(topic_id, command.topic_id);
    assert_eq!(Some(partition_id), command.partition_id);
}

#[test]
fn should_be_deserialized_from_bytes() {
    let consumer = Consumer::new(Identifier::numeric(1).unwrap());
    let stream_id = Identifier::numeric(2).unwrap();
    let topic_id = Identifier::numeric(3).unwrap();
    let partition_id = 4u32;

    let consumer_bytes = consumer.to_bytes();
    let stream_id_bytes = stream_id.to_bytes();
    let topic_id_bytes = topic_id.to_bytes();
    let mut bytes = BytesMut::with_capacity(
        12 + consumer_bytes.len() + stream_id_bytes.len() + topic_id_bytes.len(),
    );
    bytes.put_slice(&consumer_bytes);
    bytes.put_slice(&stream_id_bytes);
    bytes.put_slice(&topic_id_bytes);
    bytes.put_u32_le(partition_id);

    let command = DeleteConsumerOffset::from_bytes(bytes.freeze());
    assert!(command.is_ok());

    let command = command.unwrap();
    assert_eq!(command.consumer, consumer);
    assert_eq!(command.stream_id, stream_id);
    assert_eq!(command.topic_id, topic_id);
    assert_eq!(command.partition_id, Some(partition_id));
}

#[test]
fn command_has_exact_wire_bytes() {
    let bytes = numeric_command(Some(4)).to_bytes();
    let expected: Vec<u8> = vec![
        1, 1, 1, 0, 0, 0, // consumer: kind, tag, number
        1, 2, 0, 0, 0, // stream
        1, 3, 0, 0, 0, // topic
        4, 0, 0, 0, // partition
    ];
    assert_eq!(&bytes[..], &expected[..]);
}

#[test]
fn command_ends_with_partition_and_adds_up() {
    let command = numeric_command(Some(4));
    let bytes = command.to_bytes();
    let total = bytes.len();
    let tail: [u8; 4] = bytes[total - 4..].try_into().unwrap();
    assert_eq!(u32::from_le_bytes(tail), 4);
    assert_eq!(
        total,
        command.consumer.to_bytes().len()
            + command.stream_id.to_bytes().len()
            + command.topic_id.to_bytes().len()
            + 4
    );
    assert_eq!(total, 20);
    assert_eq!(command.get_size_bytes().as_bytes_usize(), 20);
}

#[test]
fn command_with_large_partition_is_little_endian() {
    let bytes = numeric_command(Some(0x0102_0304)).to_bytes();
    assert_eq!(&bytes[16..], &[4u8, 3, 2, 1][..]);
    let back = DeleteConsumerOffset::from_bytes(bytes).unwrap();
    assert_eq!(back.partition_id, Some(0x0102_0304));
}

#[test]
fn command_round_trips_without_partition() {
    let command = numeric_command(None);
    let back = DeleteConsumerOffset::from_bytes(command.to_bytes()).unwrap();
    assert_eq!(back, command);
}

#[test]
fn command_round_trips_with_partition() {
    for partition in [1u32, 2, 255, 256, 65_536, u32::MAX] {
        let command = numeric_command(Some(partition));
        let back = DeleteConsumerOffset::from_bytes(command.to_bytes()).unwrap();
        assert_eq!(back, command);
    }
}

#[test]
fn command_round_trips_with_names_and_group() {
    let long_name = "n".repeat(255);
    let command = DeleteConsumerOffset {
        consumer: Consumer::group(Identifier::named("readers").unwrap()),
        stream_id: Identifier::named("s").unwrap(),
        topic_id: Identifier::named(&long_name).unwrap(),
        partition_id: None,
    };
    let bytes = command.to_bytes();
    assert_eq!(bytes.len(), (1 + 2 + 7) + (2 + 1) + (2 + 255) + 4);
    let back = DeleteConsumerOffset::from_bytes(bytes).unwrap();
    assert_eq!(back, command);
    assert_eq!(back.consumer.kind, ConsumerKind::ConsumerGroup);
}

#[test]
fn partition_zero_collapses_to_none() {
    let zero = numeric_command(Some(0));
    let none = numeric_command(None);
    assert_eq!(zero.to_bytes(), none.to_bytes());
    let from_zero = DeleteConsumerOffset::from_bytes(zero.to_bytes()).unwrap();
    let from_none = DeleteConsumerOffset::from_bytes(none.to_bytes()).unwrap();
    assert_eq!(from_zero.partition_id, None);
    assert_eq!(from_none.partition_id, None);
    assert_eq!(from_zero, none);
}

#[test]
fn short_frames_are_invalid_commands() {
    let full = numeric_command(Some(4)).to_bytes();
    for length in 0..15 {
        let outcome = DeleteConsumerOffset::from_bytes(full.slice(..length));
        assert_eq!(outcome, Err(IggyError::InvalidCommand));
    }
    let garbage = Bytes::from(vec![0xffu8; 14]);
    assert_eq!(
        DeleteConsumerOffset::from_bytes(garbage),
        Err(IggyError::InvalidCommand)
    );
}

#[test]
fn shortest_encoding_is_below_the_frame_minimum() {
    let command = DeleteConsumerOffset {
        consumer: Consumer::new(Identifier::named("a").unwrap()),
        stream_id: Identifier::named("b").unwrap(),
        topic_id: Identifier::named("c").unwrap(),
        partition_id: Some(1),
    };
    let bytes = command.to_bytes();
    assert_eq!(bytes.len(), 14);
    assert_eq!(
        DeleteConsumerOffset::from_bytes(bytes),
        Err(IggyError::InvalidCommand)
    );
}

#[test]
fn frame_without_partition_bytes_is_a_bad_number() {
    let full = numeric_command(Some(4)).to_bytes();
    for length in 16..20 {
        let outcome = DeleteConsumerOffset::from_bytes(full.slice(..length));
        assert_eq!(outcome, Err(IggyError::InvalidNumberEncoding));
    }
}

#[test]
fn frame_cut_inside_an_identifier_is_an_invalid_identifier() {
    let full = numeric_command(Some(4)).to_bytes();
    // 15 bytes: the consumer and the stream are whole, the topic is cut.
    let outcome = DeleteConsumerOffset::from_bytes(full.slice(..15));
    assert_eq!(outcome, Err(IggyError::InvalidIdentifier));
}

#[test]
fn unknown_consumer_kind_is_an_invalid_command() {
    let mut raw = numeric_command(Some(4)).to_bytes().to_vec();
    raw[0] = 9;
    assert_eq!(
        DeleteConsumerOffset::from_bytes(Bytes::from(raw)),
        Err(IggyError::InvalidCommand)
    );
}

#[test]
fn unknown_identifier_tag_is_an_invalid_identifier() {
    for at in [1usize, 6, 11] {
        let mut raw = numeric_command(Some(4)).to_bytes().to_vec();
        raw[at] = 7;
        assert_eq!(
            DeleteConsumerOffset::from_bytes(Bytes::from(raw)),
            Err(IggyError::InvalidIdentifier)
        );
    }
}

#[test]
fn bytes_after_the_partition_are_ignored() {
    let command = numeric_command(Some(4));
    let mut raw = command.to_bytes().to_vec();
    raw.extend_from_slice(&[0xaa, 0xbb, 0xcc]);
    let back = DeleteConsumerOffset::from_bytes(Bytes::from(raw)).unwrap();
    assert_eq!(back, command);
}

#[test]
fn command_code_is_fixed() {
    assert_eq!(DELETE_CONSUMER_OFFSET_CODE, 122);
    assert_eq!(numeric_command(Some(4)).code(), 122);
    assert_eq!(DeleteConsumerOffset::default().code(), 122);
}

#[test]
fn command_validate_accepts_everything() {
    assert_eq!(numeric_command(Some(4)).validate(), Ok(()));
    assert_eq!(numeric_command(None).validate(), Ok(()));
    let group_with_partition = DeleteConsumerOffset {
        consumer: Consumer::group(Identifier::numeric(1).unwrap()),
        stream_id: Identifier::numeric(2).unwrap(),
        topic_id: Identifier::numeric(3).unwrap(),
        partition_id: Some(0),
    };
    assert_eq!(group_with_partition.validate(), Ok(()));
}

#[test]
fn command_default_names_partition_one() {
    let command = DeleteConsumerOffset::default();
    assert_eq!(command.consumer, Consumer::default());
    assert_eq!(command.consumer.kind, ConsumerKind::Consumer);
    assert_eq!(command.stream_id, Identifier::default());
    assert_eq!(command.topic_id, Identifier::default());
    assert_eq!(command.partition_id, Some(1));
    assert_eq!(command.clone(), command);
}

#[test]
fn command_displays_fields_between_pipes() {
    assert_eq!(numeric_command(Some(4)).to_string(), "consumer|1|2|3|4");
    assert_eq!(numeric_command(None).to_string(), "consumer|1|2|3|0");
    let named = DeleteConsumerOffset {
        consumer: Consumer::group(Identifier::named("readers").unwrap()),
        stream_id: Identifier::named("orders").unwrap(),
        topic_id: Identifier::numeric(4_294_967_295).unwrap(),
        partition_id: Some(120),
    };
    assert_eq!(
        named.to_string(),
        "consumer_group|readers|orders|4294967295|120"
    );
}

#[test]
fn shortest_encoding_is_read_when_bytes_follow() {
    let command = DeleteConsumerOffset {
        consumer: Consumer::new(Identifier::named("a").unwrap()),
        stream_id: Identifier::named("b").unwrap(),
        topic_id: Identifier::named("c").unwrap(),
        partition_id: Some(1),
    };
    let mut raw = command.to_bytes().to_vec();
    raw.push(0);
    assert_eq!(raw.len(), 15);
    let back = DeleteConsumerOffset::from_bytes(Bytes::from(raw)).unwrap();
    assert_eq!(back, command);
}
