use iot_protocol::iot_client::IotClient;
use iot_protocol::iot_error::{ConnectError, RequestError};
use iot_protocol::iot_message::{CommandType, IotMessage};
use iot_protocol::iot_server::IotConnection;
use iot_protocol::transport::MemoryTransport;

/// A peer that opens with any eight bytes other than the client literal is
/// refused with a handshake failure, and no connection exists to process
/// requests on.
#[test]
fn test_server_handshake_mismatch() {
    let stream = MemoryTransport::with_input(b"not_iot!".to_vec());
    let outcome = IotConnection::try_handshake(stream);
    assert!(matches!(outcome, Err(ConnectError::BadHandshake)));
}

/// A server that answers with anything but the server literal is refused.
#[test]
fn test_client_handshake_mismatch() {
    let stream = MemoryTransport::with_input(b"iot_clnt".to_vec());
    let outcome = IotClient::try_handshake(stream);
    assert!(matches!(outcome, Err(ConnectError::BadHandshake)));
}

/// The matching literals let both sides through.
#[test]
fn test_handshake_success() {
    let client_stream = MemoryTransport::with_input(b"iot_serv".to_vec());
    assert!(IotClient::try_handshake(client_stream).is_ok());

    let server_stream = MemoryTransport::with_input(b"iot_clnt".to_vec());
    assert!(IotConnection::try_handshake(server_stream).is_ok());
}

/// One full exchange, staged over in-memory streams: the client handshakes
/// and sends a power-on request, the server handshakes, invokes a handler
/// that toggles the simulated state, and answers; the client's returned
/// payload equals the handler's response payload byte for byte.
#[test]
fn test_end_to_end_exchange() {
    // What the client will put on the wire: its handshake literal, then one
    // request frame.
    let mut request = IotMessage::new(47, CommandType::SetPowerOn, "Dummy".to_string());
    let mut client_wire = b"iot_clnt".to_vec();
    client_wire.append(&mut request.serialize_to_raw_byte_data());

    // The server reads that, runs the handler once, and answers.
    let mut powered_on = false;
    let server_stream = MemoryTransport::with_input(client_wire);
    let mut connection = IotConnection::try_handshake(server_stream).unwrap();
    connection
        .process_request(|req: IotMessage| {
            assert_eq!(req.get_id(), 47);
            assert_eq!(req.get_command_type(), CommandType::SetPowerOn);
            powered_on = true;
            IotMessage::new(
                req.get_id(),
                req.get_command_type(),
                "Response: smart socket has been enabled".to_string(),
            )
        })
        .unwrap();
    assert!(powered_on);

    // The client reads the server's answer: its literal, then the response.
    let server_wire = connection.into_transport().take_output();
    assert_eq!(&server_wire[0..8], b"iot_serv");
    let client_stream = MemoryTransport::with_input(server_wire);
    let mut client = IotClient::try_handshake(client_stream).unwrap();
    let response = client.send_request(request).unwrap();

    assert_eq!(
        response.get_message_data(),
        "Response: smart socket has been enabled"
    );
    assert!(response.get_message_data().contains("enabled"));
}

/// A response that never arrives is reported as a receive-phase failure, so
/// the caller knows the command may well have been delivered.
#[test]
fn test_request_failure_phase() {
    let client_stream = MemoryTransport::with_input(b"iot_serv".to_vec());
    let mut client = IotClient::try_handshake(client_stream).unwrap();
    let request = IotMessage::new(47, CommandType::GetStatus, "Dummy".to_string());
    let outcome = client.send_request(request);
    assert!(matches!(outcome, Err(RequestError::Recv(_))));
}
