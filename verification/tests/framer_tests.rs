use iot_protocol::iot_error::ReceptionError;
use iot_protocol::iot_message::{CommandType, IotMessage};
use iot_protocol::transport::MemoryTransport;
use iot_protocol::{receive_message, send_message};

/// A message sent into an in-memory stream is received back unchanged.
#[test]
fn test_loopback_mode() {
    let message = IotMessage::new(1, CommandType::SetPowerOn, "test".to_string());
    let mut sender = MemoryTransport::with_input(Vec::new());

    send_message(message.clone(), &mut sender).unwrap();

    let mut receiver = MemoryTransport::with_input(sender.take_output());
    let received_message = receive_message(&mut receiver).unwrap();

    assert_eq!(received_message, message);
}

/// An empty-payload frame is framed with its filler byte and received back.
#[test]
fn test_loopback_empty_payload() {
    let message = IotMessage::new(9, CommandType::GetStatus, "".to_string());
    let mut sender = MemoryTransport::with_input(Vec::new());

    send_message(message.clone(), &mut sender).unwrap();
    let wire = sender.take_output();
    assert_eq!(wire.len(), 7);

    let mut receiver = MemoryTransport::with_input(wire);
    let received_message = receive_message(&mut receiver).unwrap();

    assert_eq!(received_message, message);
}

/// A payload longer than 255 bytes exercises both bytes of the big-endian
/// length field.
#[test]
fn test_loopback_long_payload() {
    let payload = "a".repeat(300);
    let message = IotMessage::new(2, CommandType::SetPowerOff, payload);
    assert_eq!(message.get_data_length(), 300);
    let mut sender = MemoryTransport::with_input(Vec::new());

    send_message(message.clone(), &mut sender).unwrap();

    let mut receiver = MemoryTransport::with_input(sender.take_output());
    let received_message = receive_message(&mut receiver).unwrap();

    assert_eq!(received_message, message);
}

/// A whole frame whose command tag is unknown is a bad-format failure,
/// distinct from a stream failure.
#[test]
fn test_receive_bad_format() {
    let wire = vec![1, 99, 0, 4, 116, 101, 115, 116, 52, 14];
    let mut receiver = MemoryTransport::with_input(wire);
    let outcome = receive_message(&mut receiver);
    assert!(matches!(outcome, Err(ReceptionError::BadFormat)));
}

/// A stream that ends before one whole frame arrived is an I/O failure.
#[test]
fn test_receive_truncated_stream() {
    let wire = vec![1, 1, 0, 4, 116, 101];
    let mut receiver = MemoryTransport::with_input(wire);
    let outcome = receive_message(&mut receiver);
    assert!(matches!(outcome, Err(ReceptionError::Io(_))));
}
