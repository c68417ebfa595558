use vstd::prelude::*;
use vstd::string::StrSliceExecFns;
use vstd::utf8::{decode_utf8, encode_utf8, valid_utf8};
use vstd::utf8::encode_utf8_decode_utf8;
use crate::{combine16, hi_byte, lo_byte, u16_from_be_pair, u16_to_be_pair, lemma_combine16_split};

verus! {

/// Number of bytes the checksum occupies on the wire.
pub const CRC_LENGTH: usize = 2;

/// The commands a device understands.
#[derive(Debug, Copy, Clone, PartialEq, Eq, Structural)]
pub enum CommandType {
    SetPowerOn,
    SetPowerOff,
    GetStatus,
}

/// The one-byte tag a command is written as on the wire.
pub open spec fn command_tag(command: CommandType) -> u8 {
    match command {
        CommandType::SetPowerOn => 1,
        CommandType::SetPowerOff => 2,
        CommandType::GetStatus => 3,
    }
}

/// The command a one-byte wire tag stands for, if any.
pub open spec fn command_of_tag(tag: u8) -> Option<CommandType> {
    if tag == 1 {
        Some(CommandType::SetPowerOn)
    } else if tag == 2 {
        Some(CommandType::SetPowerOff)
    } else if tag == 3 {
        Some(CommandType::GetStatus)
    } else {
        None
    }
}

/// Writes a command as its wire tag.
pub fn command_to_byte(command: CommandType) -> (r: u8)
    ensures
        r == command_tag(command),
{
    match command {
        CommandType::SetPowerOn => 1,
        CommandType::SetPowerOff => 2,
        CommandType::GetStatus => 3,
    }
}

/// Reads a wire tag back as a command; unknown tags are rejected.
pub fn byte_to_command(tag: u8) -> (r: Option<CommandType>)
    ensures
        r == command_of_tag(tag),
{
    if tag == 1 {
        Some(CommandType::SetPowerOn)
    } else if tag == 2 {
        Some(CommandType::SetPowerOff)
    } else if tag == 3 {
        Some(CommandType::GetStatus)
    } else {
        None
    }
}

/// The CRC-16/ARC value of a byte sequence.
pub uninterp spec fn crc16_arc(data: Seq<u8>) -> u16;

/// Relies on crc16::State::<ARC>::calculate: the CRC-16/ARC value of the
/// bytes, a function of the bytes alone.
#[verifier::external_body]
fn crc16_arc_compute(data: &Vec<u8>) -> (r: u16)
    ensures
        r == crc16_arc(data@),
{
    crc16::State::<crc16::ARC>::calculate(data.as_slice())
}

/// The text str::trim leaves of a character sequence.
pub uninterp spec fn trim_of(s: Seq<char>) -> Seq<char>;

/// Relies on str::trim: the input with leading and trailing whitespace
/// removed, a function of the characters alone.
#[verifier::external_body]
fn trim_to_string(s: &String) -> (r: String)
    ensures
        r@ == trim_of(s@),
{
    s.trim().to_owned()
}

/// Relies on String::from_utf8_lossy: on valid UTF-8 input the decoding is
/// lossless, so it returns exactly the characters the bytes encode.
#[verifier::external_body]
fn bytes_to_string_lossy(bytes: &Vec<u8>) -> (r: String)
    ensures
        valid_utf8(bytes@) ==> r@ == decode_utf8(bytes@),
{
    String::from_utf8_lossy(bytes.as_slice()).to_string()
}

/// The mathematical content of a message: what each field holds.
pub struct MessageView {
    pub id: u8,
    pub command: CommandType,
    pub data_length: u16,
    pub payload: Seq<char>,
    pub crc: u16,
}

/// The four header bytes of a message on the wire.
pub open spec fn message_header(id: u8, command: CommandType, data_length: u16) -> Seq<u8> {
    seq![id, command_tag(command), hi_byte(data_length), lo_byte(data_length)]
}

/// The bytes the checksum is computed over: header then payload bytes.
pub open spec fn checksum_input(v: MessageView) -> Seq<u8> {
    message_header(v.id, v.command, v.data_length) + encode_utf8(v.payload)
}

/// The length field a fresh message carries: the byte length of the trimmed
/// payload text, reduced to 16 bits.
pub open spec fn constructed_data_length(data: Seq<char>) -> u16 {
    (encode_utf8(trim_of(data)).len() % 0x10000) as u16
}

/// The message that construction from the given fields yields: the length
/// counts the trimmed payload, while the payload and the checksum cover the
/// untrimmed text.
pub open spec fn constructed_view(device_id: u8, command: CommandType, data: Seq<char>) -> MessageView {
    MessageView {
        id: device_id,
        command: command,
        data_length: constructed_data_length(data),
        payload: data,
        crc: crc16_arc(
            message_header(device_id, command, constructed_data_length(data)) + encode_utf8(data),
        ),
    }
}

/// A message serialized: header, payload bytes (or one filler byte when the
/// length field is zero), then the checksum big-endian.
pub open spec fn wire_bytes(v: MessageView) -> Seq<u8> {
    message_header(v.id, v.command, v.data_length)
        + (if v.data_length > 0 {
            encode_utf8(v.payload)
        } else {
            seq![0u8]
        })
        + seq![hi_byte(v.crc), lo_byte(v.crc)]
}

/// The length field of a serialized frame.
pub open spec fn frame_data_length(bytes: Seq<u8>) -> u16 {
    combine16(bytes[2], bytes[3])
}

/// How many bytes follow the header: the payload and checksum, or the filler
/// byte and checksum when the length field is zero.
pub open spec fn frame_body_len(data_length: u16) -> int {
    if data_length > 0 {
        data_length + 2
    } else {
        3
    }
}

/// The total number of bytes one frame occupies.
pub open spec fn frame_len(bytes: Seq<u8>) -> int {
    4 + frame_body_len(frame_data_length(bytes))
}

/// The payload bytes of a serialized frame.
pub open spec fn frame_payload_bytes(bytes: Seq<u8>) -> Seq<u8> {
    bytes.subrange(4, 4 + frame_data_length(bytes) as int)
}

/// The checksum a serialized frame carries, past the payload or the filler.
pub open spec fn frame_crc(bytes: Seq<u8>) -> u16 {
    let l = frame_data_length(bytes) as int;
    if l > 0 {
        combine16(bytes[4 + l], bytes[5 + l])
    } else {
        combine16(bytes[5], bytes[6])
    }
}

/// What parsing a frame yields: the header fields and checksum as
/// transmitted, and the payload bytes decoded; frames with an unknown
/// command tag are rejected.
pub open spec fn parse_view(bytes: Seq<u8>) -> Option<MessageView> {
    match command_of_tag(bytes[1]) {
        Some(c) => Some(
            MessageView {
                id: bytes[0],
                command: c,
                data_length: frame_data_length(bytes),
                payload: decode_utf8(frame_payload_bytes(bytes)),
                crc: frame_crc(bytes),
            },
        ),
        None => None,
    }
}

/// Holds when a deserialized message carries exactly what the frame says:
/// every field as parsed, the payload at least whenever the payload bytes
/// are valid UTF-8 (invalid bytes are decoded with replacement characters,
/// which the model leaves open).
pub open spec fn message_matches_frame(m: MessageView, bytes: Seq<u8>) -> bool {
    match parse_view(bytes) {
        Some(v) => m.id == v.id && m.command == v.command && m.data_length == v.data_length
            && m.crc == v.crc && (valid_utf8(frame_payload_bytes(bytes)) ==> m.payload
            == v.payload),
        None => false,
    }
}

/// One protocol message: the sole entity that crosses the wire.
#[derive(Debug, Clone)]
pub struct IotMessage {
    id: u8,
    command: CommandType,
    message_data: String,
    data_length: u16,
    crc: u16,
}

impl View for IotMessage {
    type V = MessageView;

    closed spec fn view(&self) -> MessageView {
        MessageView {
            id: self.id,
            command: self.command,
            data_length: self.data_length,
            payload: self.message_data@,
            crc: self.crc,
        }
    }
}

impl PartialEq for IotMessage {
    fn eq(&self, other: &Self) -> (r: bool) {
        self.id == other.id && self.command == other.command && self.data_length
            == other.data_length && self.message_data == other.message_data && self.crc
            == other.crc
    }
}

impl vstd::std_specs::cmp::PartialEqSpecImpl for IotMessage {
    open spec fn obeys_eq_spec() -> bool {
        true
    }

    open spec fn eq_spec(&self, other: &Self) -> bool {
        self@ == other@
    }
}

impl IotMessage {
    /// Builds a fresh message: the length field counts the trimmed payload
    /// text, and the checksum is computed over the other four fields.
    pub fn new(device_id: u8, command: CommandType, data: String) -> (r: Self)
        ensures
            r@ == constructed_view(device_id, command, data@),
    {
        let trimmed = trim_to_string(&data);
        let trimmed_bytes = trimmed.as_str().as_bytes_vec();
        let data_length: u16 = (trimmed_bytes.len() % 65536) as u16;
        let mut temp = IotMessage {
            id: device_id,
            command: command,
            data_length: data_length,
            message_data: data,
            crc: 0,
        };
        let crc = temp.calculate_crc();
        temp.crc = crc;
        temp
    }

    /// The CRC-16/ARC checksum of this message's header and payload bytes.
    pub fn calculate_crc(&self) -> (r: u16)
        ensures
            r == crc16_arc(checksum_input(self@)),
    {
        let mut crc_input: Vec<u8> = Vec::new();
        crc_input.push(self.id);
        crc_input.push(command_to_byte(self.command));
        let (hi, lo) = u16_to_be_pair(self.data_length);
        crc_input.push(hi);
        crc_input.push(lo);
        let mut payload_bytes = self.message_data.as_str().as_bytes_vec();
        crc_input.append(&mut payload_bytes);
        assert(crc_input@ =~= checksum_input(self@));
        crc16_arc_compute(&crc_input)
    }

    /// Serializes the message into its wire frame.
    pub fn serialize_to_raw_byte_data(&mut self) -> (r: Vec<u8>)
        ensures
            *final(self) == *old(self),
            r@ == wire_bytes(old(self)@),
    {
        let mut raw_bytes: Vec<u8> = Vec::new();
        raw_bytes.push(self.id);
        raw_bytes.push(command_to_byte(self.command));
        let (hi, lo) = u16_to_be_pair(self.data_length);
        raw_bytes.push(hi);
        raw_bytes.push(lo);
        if self.data_length > 0 {
            let mut payload_bytes = self.message_data.as_str().as_bytes_vec();
            raw_bytes.append(&mut payload_bytes);
        } else {
            raw_bytes.push(0);
        }
        let (crc_hi, crc_lo) = u16_to_be_pair(self.crc);
        raw_bytes.push(crc_hi);
        raw_bytes.push(crc_lo);
        assert(raw_bytes@ =~= wire_bytes(self@));
        raw_bytes
    }

    /// Parses one wire frame back into a message. The caller hands over at
    /// least one whole frame; only an unknown command tag is rejected.
    pub fn deserialize_from_raw_byte_data(raw_bytes: Vec<u8>) -> (r: Option<IotMessage>)
        requires
            raw_bytes@.len() >= 4,
            raw_bytes@.len() >= frame_len(raw_bytes@),
        ensures
            r is Some <==> command_of_tag(raw_bytes@[1]) is Some,
            r matches Some(m) ==> message_matches_frame(m@, raw_bytes@),
    {
        let id = raw_bytes[0];
        let tag = raw_bytes[1];
        let command = match byte_to_command(tag) {
            Some(c) => c,
            None => {
                return None;
            },
        };
        let data_length = u16_from_be_pair(raw_bytes[2], raw_bytes[3]);
        let dl = data_length as usize;
        let payload_slice = vstd::slice::slice_subrange(raw_bytes.as_slice(), 4, 4 + dl);
        let payload_vec = vstd::slice::slice_to_vec(payload_slice);
        let message_data = bytes_to_string_lossy(&payload_vec);
        let crc = if data_length > 0 {
            u16_from_be_pair(raw_bytes[4 + dl], raw_bytes[5 + dl])
        } else {
            u16_from_be_pair(raw_bytes[5], raw_bytes[6])
        };
        Some(
            IotMessage {
                id: id,
                command: command,
                data_length: data_length,
                message_data: message_data,
                crc: crc,
            },
        )
    }

    /// The target device's identifier.
    pub fn get_id(&self) -> (r: u8)
        ensures
            r == self@.id,
    {
        self.id
    }

    /// The command the message carries.
    pub fn get_command_type(&self) -> (r: CommandType)
        ensures
            r == self@.command,
    {
        self.command
    }

    /// The payload text.
    pub fn get_message_data(&self) -> (r: String)
        ensures
            r@ == self@.payload,
    {
        self.message_data.clone()
    }

    /// The length field: the byte length of the trimmed payload text.
    pub fn get_data_length(&self) -> (r: u16)
        ensures
            r == self@.data_length,
    {
        self.data_length
    }

    /// The checksum the message carries.
    pub fn get_crc(&self) -> (r: u16)
        ensures
            r == self@.crc,
    {
        self.crc
    }
}

/// Round-trip identity: parsing the serialization of a freshly constructed
/// message yields that message back, for every payload that carries no
/// leading or trailing whitespace and whose UTF-8 form fits the 16-bit
/// length field.
pub proof fn lemma_round_trip(device_id: u8, command: CommandType, payload: Seq<char>)
    ensures
        (trim_of(payload) == payload && encode_utf8(payload).len() <= 0xFFFF)
            ==> parse_view(wire_bytes(constructed_view(device_id, command, payload)))
            == Some(constructed_view(device_id, command, payload)),
{
    if trim_of(payload) == payload && encode_utf8(payload).len() <= 0xFFFF {
        let v = constructed_view(device_id, command, payload);
        let w = wire_bytes(v);
        let body = encode_utf8(payload);
        lemma_combine16_split(v.data_length);
        assert(v.data_length == body.len());
        assert(w[0] == v.id);
        assert(w[1] == command_tag(v.command));
        assert(w[2] == hi_byte(v.data_length));
        assert(w[3] == lo_byte(v.data_length));
        assert(frame_data_length(w) == v.data_length);
        assert(command_of_tag(command_tag(v.command)) == Some(v.command));
        if v.data_length > 0 {
            assert(frame_payload_bytes(w) =~= body);
            assert(w[4 + body.len() as int] == hi_byte(v.crc));
            assert(w[5 + body.len() as int] == lo_byte(v.crc));
            lemma_combine16_split(v.crc);
            assert(frame_crc(w) == v.crc);
        } else {
            assert(body.len() == 0);
            assert(frame_payload_bytes(w) =~= body);
            assert(w[5] == hi_byte(v.crc));
            assert(w[6] == lo_byte(v.crc));
            lemma_combine16_split(v.crc);
            assert(frame_crc(w) == v.crc);
        }
        encode_utf8_decode_utf8(payload);
        assert(decode_utf8(frame_payload_bytes(w)) == payload);
        assert(parse_view(w) == Some(v));
    }
}

} // verus!
