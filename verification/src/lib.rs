use vstd::prelude::*;

pub mod iot_client;
pub mod iot_error;
pub mod iot_message;
pub mod iot_server;
pub mod transport;

use iot_message::IotMessage;
use transport::Transport;

verus! {

/// Combines a big-endian pair of bytes into the 16-bit value they encode.
pub open spec fn combine16(hi: u8, lo: u8) -> u16 {
    (hi * 256 + lo) as u16
}

/// High (most significant) byte of a 16-bit value.
pub open spec fn hi_byte(x: u16) -> u8 {
    (x / 256) as u8
}

/// Low (least significant) byte of a 16-bit value.
pub open spec fn lo_byte(x: u16) -> u8 {
    (x % 256) as u8
}

/// Splitting a 16-bit value into bytes and recombining them is the identity.
pub proof fn lemma_combine16_split(x: u16)
    ensures
        combine16(hi_byte(x), lo_byte(x)) == x,
{
    assert(x / 256 * 256 + x % 256 == x) by (nonlinear_arith);
}

/// Big-endian decomposition of a 16-bit value, high byte first.
pub fn u16_to_be_pair(x: u16) -> (r: (u8, u8))
    ensures
        r.0 == hi_byte(x),
        r.1 == lo_byte(x),
        combine16(r.0, r.1) == x,
{
    proof {
        lemma_combine16_split(x);
    }
    ((x / 256) as u8, (x % 256) as u8)
}

/// Recombines a big-endian byte pair into a 16-bit value.
pub fn u16_from_be_pair(hi: u8, lo: u8) -> (r: u16)
    ensures
        r == combine16(hi, lo),
{
    hi as u16 * 256 + lo as u16
}

/// The eight bytes of ASCII "iot_clnt", the literal the connecting side
/// opens the handshake with.
pub open spec fn clnt_literal() -> Seq<u8> {
    seq![105u8, 111u8, 116u8, 95u8, 99u8, 108u8, 110u8, 116u8]
}

/// The eight bytes of ASCII "iot_serv", the literal the accepting side
/// answers the handshake with.
pub open spec fn serv_literal() -> Seq<u8> {
    seq![105u8, 111u8, 116u8, 95u8, 115u8, 101u8, 114u8, 118u8]
}

/// Builds the client handshake literal.
pub fn clnt_literal_bytes() -> (r: Vec<u8>)
    ensures
        r@ == clnt_literal(),
{
    let r: Vec<u8> = vec![105u8, 111u8, 116u8, 95u8, 99u8, 108u8, 110u8, 116u8];
    assert(r@ =~= clnt_literal());
    r
}

/// Builds the server handshake literal.
pub fn serv_literal_bytes() -> (r: Vec<u8>)
    ensures
        r@ == serv_literal(),
{
    let r: Vec<u8> = vec![105u8, 111u8, 116u8, 95u8, 115u8, 101u8, 114u8, 118u8];
    assert(r@ =~= serv_literal());
    r
}

/// Compares two byte strings for equality.
pub fn bytes_equal(a: &Vec<u8>, b: &Vec<u8>) -> (r: bool)
    ensures
        r <==> a@ == b@,
{
    if a.len() != b.len() {
        assert(a@ != b@);
        return false;
    }
    let mut i: usize = 0;
    while i < a.len()
        invariant
            0 <= i <= a.len(),
            a@.len() == b@.len(),
            forall|j: int| 0 <= j < i ==> a@[j] == b@[j],
        decreases a.len() - i,
    {
        if a[i] != b[i] {
            assert(a@ != b@);
            return false;
        }
        i = i + 1;
    }
    assert(a@ =~= b@);
    true
}

/// Holds when the incoming stream starts with one whole frame: at least the
/// four header bytes, and as many more as the header's length field asks for.
pub open spec fn frame_ready(inc: Seq<u8>) -> bool {
    inc.len() >= 4 && inc.len() >= iot_message::frame_len(inc)
}

/// Serializes the message and writes the whole frame to the stream.
pub fn send_message<T: Transport>(message: IotMessage, stream: &mut T) -> (r: Result<
    (),
    iot_error::TransmissionError,
>)
    ensures
        final(stream).incoming() == old(stream).incoming(),
        r is Ok ==> final(stream).outgoing() == old(stream).outgoing() + iot_message::wire_bytes(
            message@,
        ),
{
    let mut message = message;
    let raw_bytes = message.serialize_to_raw_byte_data();
    match stream.write_all_bytes(&raw_bytes) {
        Ok(()) => Ok(()),
        Err(e) => Err(iot_error::TransmissionError::Io(e)),
    }
}

/// Reads exactly one frame from the stream — the four header bytes, then the
/// payload and checksum, or the filler byte and checksum when the length
/// field is zero — and hands the bytes to the codec. A frame whose command
/// tag is unknown is a bad-format failure, distinct from a stream failure.
pub fn receive_message<T: Transport>(stream: &mut T) -> (r: Result<
    IotMessage,
    iot_error::ReceptionError,
>)
    ensures
        final(stream).outgoing() == old(stream).outgoing(),
        r matches Ok(m) ==> ({
            let inc = old(stream).incoming();
            frame_ready(inc) && iot_message::message_matches_frame(
                m@,
                inc.take(iot_message::frame_len(inc)),
            ) && final(stream).incoming() == inc.skip(iot_message::frame_len(inc))
        }),
        r matches Err(e) ==> (e is BadFormat ==> ({
            let inc = old(stream).incoming();
            frame_ready(inc) && iot_message::command_of_tag(inc[1]) is None
                && final(stream).incoming() == inc.skip(iot_message::frame_len(inc))
        })),
{
    let ghost inc = old(stream).incoming();
    let mut raw_message = match stream.read_exact_bytes(4) {
        Ok(b) => b,
        Err(e) => {
            return Err(iot_error::ReceptionError::Io(e));
        },
    };
    let data_length = u16_from_be_pair(raw_message[2], raw_message[3]);
    let body_len: usize = if data_length > 0 {
        data_length as usize + 2
    } else {
        3
    };
    let mut body = match stream.read_exact_bytes(body_len) {
        Ok(b) => b,
        Err(e) => {
            return Err(iot_error::ReceptionError::Io(e));
        },
    };
    raw_message.append(&mut body);
    proof {
        assert(iot_message::frame_data_length(inc) == data_length);
        assert(iot_message::frame_len(inc) == 4 + body_len);
        assert(raw_message@ =~= inc.take(iot_message::frame_len(inc)));
        assert(iot_message::frame_len(raw_message@) == iot_message::frame_len(inc));
        assert(stream.incoming() =~= inc.skip(iot_message::frame_len(inc)));
    }
    match IotMessage::deserialize_from_raw_byte_data(raw_message) {
        Some(message) => Ok(message),
        None => Err(iot_error::ReceptionError::BadFormat),
    }
}

} // verus!
