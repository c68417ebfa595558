use iot_protocol::iot_message::{CommandType, IotMessage};

/// The CRC-16/ARC reference vector for a small request.
#[test]
fn test_crc() {
    let command = IotMessage::new(1, CommandType::SetPowerOn, "test".to_string());
    assert_eq!(command.get_crc(), 0x340E);
}

#[test]
fn test_serialize() {
    let mut command = IotMessage::new(1, CommandType::SetPowerOn, "test".to_string());
    assert_eq!(
        command.serialize_to_raw_byte_data(),
        vec![1, 1, 0, 4, 116, 101, 115, 116, 52, 14]
    );
}

#[test]
fn test_deserialize() {
    let command = IotMessage::new(1, CommandType::SetPowerOn, "test".to_string());
    let raw_bytes = vec![1, 1, 0, 4, 116, 101, 115, 116, 52, 14];

    let the_same_command = IotMessage::deserialize_from_raw_byte_data(raw_bytes);

    assert_eq!(the_same_command.is_some(), true);

    if let Some(message) = the_same_command {
        assert_eq!(message, command);
    }
}

/// An unrecognized command tag is a structural failure, never a message.
#[test]
fn test_deserialize_unknown_command() {
    let raw_bytes = vec![1, 99, 0, 4, 116, 101, 115, 116, 52, 14];
    let parsed = IotMessage::deserialize_from_raw_byte_data(raw_bytes);
    assert!(parsed.is_none());
}

/// An empty payload serializes with a single filler byte after the header
/// and still round-trips to an equivalent message with length field zero.
#[test]
fn test_empty_payload_round_trip() {
    let mut message = IotMessage::new(1, CommandType::GetStatus, "".to_string());
    assert_eq!(message.get_data_length(), 0);
    let raw_bytes = message.serialize_to_raw_byte_data();
    assert_eq!(raw_bytes.len(), 7);
    assert_eq!(&raw_bytes[0..5], &[1, 3, 0, 0, 0]);
    let parsed = IotMessage::deserialize_from_raw_byte_data(raw_bytes).unwrap();
    assert_eq!(parsed, message);
    assert_eq!(parsed.get_message_data(), "");
}

/// The length field counts the trimmed payload text while the payload bytes
/// stay untrimmed; the checksum covers the untrimmed bytes.
#[test]
fn test_trimmed_length_untrimmed_payload() {
    let message = IotMessage::new(7, CommandType::SetPowerOff, "  hi  ".to_string());
    assert_eq!(message.get_data_length(), 2);
    assert_eq!(message.get_message_data(), "  hi  ");
}

/// Field accessors hand back exactly what construction put in.
#[test]
fn test_field_accessors() {
    let message = IotMessage::new(47, CommandType::GetStatus, "status?".to_string());
    assert_eq!(message.get_id(), 47);
    assert_eq!(message.get_command_type(), CommandType::GetStatus);
    assert_eq!(message.get_message_data(), "status?");
    assert_eq!(message.get_data_length(), 7);
}

/// Messages are equal exactly when all five fields are equal.
#[test]
fn test_message_equality() {
    let a = IotMessage::new(1, CommandType::SetPowerOn, "test".to_string());
    let b = IotMessage::new(1, CommandType::SetPowerOn, "test".to_string());
    let c = IotMessage::new(2, CommandType::SetPowerOn, "test".to_string());
    let d = IotMessage::new(1, CommandType::SetPowerOff, "test".to_string());
    assert!(a == b);
    assert!(a != c);
    assert!(a != d);
}

/// The recomputed checksum of a parsed message matches the transmitted one
/// when the frame is intact.
#[test]
fn test_calculate_crc_matches_transmitted() {
    let raw_bytes = vec![1, 1, 0, 4, 116, 101, 115, 116, 52, 14];
    let parsed = IotMessage::deserialize_from_raw_byte_data(raw_bytes).unwrap();
    assert_eq!(parsed.calculate_crc(), parsed.get_crc());
}
