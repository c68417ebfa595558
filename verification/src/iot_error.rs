use vstd::prelude::*;

verus! {

/// The standard I/O error type, carried inside the protocol errors exactly
/// as the underlying stream reported it. Declared so the error enums below
/// can hold it; the value itself is opaque to verification.
#[verifier::external_type_specification]
#[verifier::external_body]
pub struct ExIoError(std::io::Error);

/// Why sending one serialized message failed.
#[derive(Debug)]
pub enum TransmissionError {
    /// The underlying stream failed while writing.
    Io(std::io::Error),
}

/// Why receiving one message failed.
#[derive(Debug)]
pub enum ReceptionError {
    /// The underlying stream failed while reading.
    Io(std::io::Error),
    /// A whole frame was read but its command tag is not recognized.
    BadFormat,
    /// The checksum did not match the frame; left to the caller to raise,
    /// since a received checksum is taken as transmitted.
    BadCRC,
}

/// Why opening a connection failed.
#[derive(Debug)]
pub enum ConnectError {
    /// The peer answered the handshake with the wrong literal.
    BadHandshake,
    /// The underlying stream failed during connect or handshake.
    Io(std::io::Error),
}

/// Why one request/response exchange failed: in which of its two phases.
#[derive(Debug)]
pub enum RequestError {
    /// The request could not be written; it may never have reached the peer.
    Send(TransmissionError),
    /// The request was written but no well-formed response arrived.
    Recv(ReceptionError),
}

impl From<std::io::Error> for TransmissionError {
    fn from(value: std::io::Error) -> (r: Self) {
        TransmissionError::Io(value)
    }
}

impl vstd::std_specs::convert::FromSpecImpl<std::io::Error> for TransmissionError {
    open spec fn obeys_from_spec() -> bool {
        true
    }

    open spec fn from_spec(value: std::io::Error) -> Self {
        TransmissionError::Io(value)
    }
}

impl From<std::io::Error> for ReceptionError {
    fn from(value: std::io::Error) -> (r: Self) {
        ReceptionError::Io(value)
    }
}

impl vstd::std_specs::convert::FromSpecImpl<std::io::Error> for ReceptionError {
    open spec fn obeys_from_spec() -> bool {
        true
    }

    open spec fn from_spec(value: std::io::Error) -> Self {
        ReceptionError::Io(value)
    }
}

impl From<std::io::Error> for ConnectError {
    fn from(value: std::io::Error) -> (r: Self) {
        ConnectError::Io(value)
    }
}

impl vstd::std_specs::convert::FromSpecImpl<std::io::Error> for ConnectError {
    open spec fn obeys_from_spec() -> bool {
        true
    }

    open spec fn from_spec(value: std::io::Error) -> Self {
        ConnectError::Io(value)
    }
}

impl From<TransmissionError> for RequestError {
    fn from(value: TransmissionError) -> (r: Self) {
        RequestError::Send(value)
    }
}

impl vstd::std_specs::convert::FromSpecImpl<TransmissionError> for RequestError {
    open spec fn obeys_from_spec() -> bool {
        true
    }

    open spec fn from_spec(value: TransmissionError) -> Self {
        RequestError::Send(value)
    }
}

impl From<ReceptionError> for RequestError {
    fn from(value: ReceptionError) -> (r: Self) {
        RequestError::Recv(value)
    }
}

impl vstd::std_specs::convert::FromSpecImpl<ReceptionError> for RequestError {
    open spec fn obeys_from_spec() -> bool {
        true
    }

    open spec fn from_spec(value: ReceptionError) -> Self {
        RequestError::Recv(value)
    }
}

} // verus!
