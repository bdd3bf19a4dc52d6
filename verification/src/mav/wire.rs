//! MAVLink messages: how their fields lie in a payload and how frames are laid out.
use vstd::arithmetic::logarithm::log;
use vstd::arithmetic::power2::pow2;
use vstd::prelude::*;

use mavlink::ardupilotmega::{
    MavMessage, CAMERA_CAPTURE_STATUS_DATA, COMMAND_ACK_DATA, COMMAND_LONG_DATA,
};

verus! {

pub const HEARTBEAT_ID: u32 = 0;

pub const COMMAND_LONG_ID: u32 = 76;

pub const COMMAND_ACK_ID: u32 = 77;

pub const CAMERA_INFORMATION_ID: u32 = 259;

pub const CAMERA_CAPTURE_STATUS_ID: u32 = 262;

pub const VIDEO_STREAM_INFORMATION_ID: u32 = 269;

/// The sender of a frame and its place in the sender's sequence.
#[derive(Debug, Clone, Copy, PartialEq, Eq, Structural)]
pub struct MavHeader {
    pub system_id: u8,
    pub component_id: u8,
    pub sequence: u8,
}

/// The versions of the protocol.
#[derive(Debug, Clone, Copy, PartialEq, Eq, Structural)]
pub enum MavlinkVersion {
    V1,
    V2,
}

/// The commands that this program sends or answers.
#[derive(Debug, Clone, Copy, PartialEq, Eq, Structural)]
pub enum MavCmd {
    RequestMessage,
    RequestCameraCaptureStatus,
    VideoStartCapture,
    VideoStopCapture,
}

/// The results that this program reports of a command.
#[derive(Debug, Clone, Copy, PartialEq, Eq, Structural)]
pub enum MavResult {
    Accepted,
}

impl MavCmd {
    /// The number of the command.
    pub open spec fn code(self) -> u16 {
        match self {
            MavCmd::RequestMessage => 512,
            MavCmd::RequestCameraCaptureStatus => 527,
            MavCmd::VideoStartCapture => 2500,
            MavCmd::VideoStopCapture => 2501,
        }
    }

    /// The command with the number `code`, if it is one that this program knows.
    pub fn from_code(code: u32) -> (r: Option<MavCmd>)
        ensures
            match r {
                Some(command) => command.code() == code,
                None => forall|command: MavCmd| command.code() != code,
            },
    {
        if code == 512 {
            Some(MavCmd::RequestMessage)
        } else if code == 527 {
            Some(MavCmd::RequestCameraCaptureStatus)
        } else if code == 2500 {
            Some(MavCmd::VideoStartCapture)
        } else if code == 2501 {
            Some(MavCmd::VideoStopCapture)
        } else {
            None
        }
    }
}

impl MavResult {
    /// The number of the result.
    pub open spec fn code(self) -> u8 {
        match self {
            MavResult::Accepted => 0,
        }
    }
}

/// A message of the ArduPilot dialect.
#[verifier::external_type_specification]
#[verifier::external_body]
pub struct ExMavMessage(MavMessage);

/// Why a payload could not be parsed.
#[verifier::external_type_specification]
#[verifier::external_body]
pub struct ExParserError(mavlink::error::ParserError);

/// The number of the message's kind.
pub uninterp spec fn message_id_of(message: MavMessage) -> u32;

/// The payload that the message is sent with.
pub uninterp spec fn message_payload(message: MavMessage) -> Seq<u8>;

/// What the message says, as far as it concerns this program.
pub uninterp spec fn message_content(message: MavMessage) -> MessageModel;

/// Whether `MavMessage::parse` accepts a payload for a kind of message.
pub uninterp spec fn parses(version_2: bool, id: u32, payload: Seq<u8>) -> bool;

/// The payload that the message is sent with which `MavMessage::parse` reads from a payload.
pub uninterp spec fn parsed_payload(version_2: bool, id: u32, payload: Seq<u8>) -> Seq<u8>;

/// The checksum that a frame of a kind of message ends with, given what stands before it, the
/// start marker left out.
pub uninterp spec fn frame_checksum(id: u32, body: Seq<u8>) -> Seq<u8>;

/// What a message says, as far as it concerns this program.
#[derive(Debug)]
pub enum Message {
    Heartbeat { base_mode: u8 },
    CommandLong(CommandLong),
    CameraInformation { flags: u32 },
    VideoStreamInformation { name: Vec<u8> },
    Other,
}

/// A command for a component. `param2_bits` is the second parameter as the bits of a
/// single-precision number.
#[derive(Debug, Clone, Copy)]
pub struct CommandLong {
    pub target_system: u8,
    pub target_component: u8,
    pub command: u32,
    pub param2_bits: u32,
}

/// The contents of a message.
pub enum MessageModel {
    Heartbeat { base_mode: u8 },
    /// `param2_bits` is none if the bits are those of no number.
    CommandLong {
        target_system: u8,
        target_component: u8,
        command: u32,
        param2_bits: Option<u32>,
    },
    CameraInformation { flags: u32 },
    VideoStreamInformation { name: Seq<u8> },
    Other,
}

impl View for Message {
    type V = MessageModel;

    open spec fn view(&self) -> MessageModel {
        match *self {
            Message::Heartbeat { base_mode } => MessageModel::Heartbeat { base_mode },
            Message::CommandLong(data) => MessageModel::CommandLong {
                target_system: data.target_system,
                target_component: data.target_component,
                command: data.command,
                param2_bits: number_bits(data.param2_bits),
            },
            Message::CameraInformation { flags } => MessageModel::CameraInformation { flags },
            Message::VideoStreamInformation { name } => MessageModel::VideoStreamInformation {
                name: name@,
            },
            Message::Other => MessageModel::Other,
        }
    }
}

/// The byte at index `i` of a payload whose trailing zeros may have been left out.
pub open spec fn byte_at(payload: Seq<u8>, i: int) -> u8 {
    if 0 <= i < payload.len() {
        payload[i]
    } else {
        0
    }
}

/// The little-endian 16-bit number at index `i`.
pub open spec fn u16_at(payload: Seq<u8>, i: int) -> int {
    byte_at(payload, i) + 256 * byte_at(payload, i + 1)
}

/// The little-endian 32-bit number at index `i`.
pub open spec fn u32_at(payload: Seq<u8>, i: int) -> int {
    u16_at(payload, i) + 65536 * u16_at(payload, i + 2)
}

/// The bits of a single-precision number; none if they are those of no number.
pub open spec fn number_bits(bits: u32) -> Option<u32> {
    if bits % 0x8000_0000 > 0x7F80_0000 {
        None
    } else {
        Some(bits)
    }
}

/// What a payload of a kind of message says.
pub open spec fn fields_at(id: u32, payload: Seq<u8>) -> MessageModel {
    if id == HEARTBEAT_ID {
        MessageModel::Heartbeat { base_mode: byte_at(payload, 6) }
    } else if id == COMMAND_LONG_ID {
        MessageModel::CommandLong {
            target_system: byte_at(payload, 30),
            target_component: byte_at(payload, 31),
            command: u16_at(payload, 28) as u32,
            param2_bits: number_bits(u32_at(payload, 4) as u32),
        }
    } else if id == CAMERA_INFORMATION_ID {
        MessageModel::CameraInformation { flags: u32_at(payload, 20) as u32 }
    } else if id == VIDEO_STREAM_INFORMATION_ID {
        MessageModel::VideoStreamInformation {
            name: Seq::new(32, |i: int| byte_at(payload, 21 + i)),
        }
    } else {
        MessageModel::Other
    }
}

/// `n` in two bytes, least significant first.
pub open spec fn le16(n: u16) -> Seq<u8> {
    seq![(n % 256) as u8, (n / 256) as u8]
}

/// `n` in four bytes, least significant first.
pub open spec fn le32(n: u32) -> Seq<u8> {
    seq![
        (n % 256) as u8,
        (n / 256 % 256) as u8,
        (n / 65536 % 256) as u8,
        (n / 16777216) as u8,
    ]
}

/// The bits of the single-precision number `n`.
pub open spec fn float_bits(n: u16) -> u32 {
    if n == 0 {
        0
    } else {
        let e = log(2, n as int);
        ((127 + e) * 0x80_0000 + (n - pow2(e as nat)) * pow2((23 - e) as nat)) as u32
    }
}

/// A payload without its trailing zeros; one byte always stays.
pub open spec fn trimmed(payload: Seq<u8>) -> Seq<u8>
    decreases payload.len(),
{
    if payload.len() > 1 && payload.last() == 0 {
        trimmed(payload.drop_last())
    } else {
        payload
    }
}

/// `n` zero bytes.
pub open spec fn zeros(n: nat) -> Seq<u8> {
    Seq::new(n, |i: int| 0u8)
}

/// The payload of an acknowledgement.
pub open spec fn ack_payload(command: MavCmd, result: MavResult) -> Seq<u8> {
    trimmed(le16(command.code()).push(result.code()))
}

/// The payload of a capture status.
pub open spec fn status_payload(
    time_boot_ms: u32,
    recording_time_ms: u32,
    image_status: u8,
    video_status: u8,
) -> Seq<u8> {
    trimmed(
        le32(time_boot_ms) + zeros(4) + le32(recording_time_ms) + zeros(4) + seq![
            image_status,
            video_status,
        ],
    )
}

/// The payload of a command whose first parameter is `param1`; the others are zero.
pub open spec fn command_payload(
    target_system: u8,
    target_component: u8,
    command: MavCmd,
    param1: u16,
) -> Seq<u8> {
    trimmed(
        le32(float_bits(param1)) + zeros(24) + le16(command.code()) + seq![
            target_system,
            target_component,
            0u8,
        ],
    )
}

/// What stands in a version 2 frame between the start marker and the checksum.
pub open spec fn frame_body(header: MavHeader, id: u32, payload: Seq<u8>) -> Seq<u8> {
    seq![
        payload.len() as u8,
        0u8,
        0u8,
        header.sequence,
        header.system_id,
        header.component_id,
        (id % 256) as u8,
        (id / 256 % 256) as u8,
        (id / 65536 % 256) as u8,
    ] + payload
}

/// A version 2 frame.
pub open spec fn v2_frame(header: MavHeader, id: u32, payload: Seq<u8>) -> Seq<u8> {
    seq![0xFDu8] + frame_body(header, id, payload) + frame_checksum(
        id,
        frame_body(header, id, payload),
    )
}

/// `MavMessage::COMMAND_ACK` with its data: an acknowledgement of `command` with `result`.
#[verifier::external_body]
pub(crate) fn command_ack_message(command: MavCmd, result: MavResult) -> (r: MavMessage)
    ensures
        message_id_of(r) == COMMAND_ACK_ID,
        message_payload(r) == ack_payload(command, result),
{
    let command = match command {
        MavCmd::RequestMessage => mavlink::ardupilotmega::MavCmd::MAV_CMD_REQUEST_MESSAGE,
        MavCmd::RequestCameraCaptureStatus => mavlink::ardupilotmega::MavCmd::MAV_CMD_REQUEST_CAMERA_CAPTURE_STATUS,
        MavCmd::VideoStartCapture => mavlink::ardupilotmega::MavCmd::MAV_CMD_VIDEO_START_CAPTURE,
        MavCmd::VideoStopCapture => mavlink::ardupilotmega::MavCmd::MAV_CMD_VIDEO_STOP_CAPTURE,
    };
    let result = match result {
        MavResult::Accepted => mavlink::ardupilotmega::MavResult::MAV_RESULT_ACCEPTED,
    };
    MavMessage::COMMAND_ACK(COMMAND_ACK_DATA { command, result })
}

/// `MavMessage::CAMERA_CAPTURE_STATUS` with its data: no interval between images and no free
/// capacity, the other fields as given.
#[verifier::external_body]
pub(crate) fn camera_capture_status_message(
    time_boot_ms: u32,
    recording_time_ms: u32,
    image_status: u8,
    video_status: u8,
) -> (r: MavMessage)
    ensures
        message_id_of(r) == CAMERA_CAPTURE_STATUS_ID,
        message_payload(r) == status_payload(
            time_boot_ms,
            recording_time_ms,
            image_status,
            video_status,
        ),
{
    MavMessage::CAMERA_CAPTURE_STATUS(
        CAMERA_CAPTURE_STATUS_DATA {
            time_boot_ms,
            recording_time_ms,
            image_status,
            video_status,
            ..CAMERA_CAPTURE_STATUS_DATA::default()
        },
    )
}

/// `MavMessage::COMMAND_LONG` with its data: `command` for a target, with its first parameter; the
/// other parameters and the confirmation are zero. `MavMessage::parse` accepts it.
#[verifier::external_body]
pub(crate) fn command_long_message(
    target_system: u8,
    target_component: u8,
    command: MavCmd,
    param1: u16,
) -> (r: MavMessage)
    ensures
        message_id_of(r) == COMMAND_LONG_ID,
        message_payload(r) == command_payload(target_system, target_component, command, param1),
        parses(true, COMMAND_LONG_ID, message_payload(r)),
{
    let command = match command {
        MavCmd::RequestMessage => mavlink::ardupilotmega::MavCmd::MAV_CMD_REQUEST_MESSAGE,
        MavCmd::RequestCameraCaptureStatus => mavlink::ardupilotmega::MavCmd::MAV_CMD_REQUEST_CAMERA_CAPTURE_STATUS,
        MavCmd::VideoStartCapture => mavlink::ardupilotmega::MavCmd::MAV_CMD_VIDEO_START_CAPTURE,
        MavCmd::VideoStopCapture => mavlink::ardupilotmega::MavCmd::MAV_CMD_VIDEO_STOP_CAPTURE,
    };
    let param1 = param1.into();
    let rest = COMMAND_LONG_DATA::default();
    MavMessage::COMMAND_LONG(
        COMMAND_LONG_DATA { param1, command, target_system, target_component, ..rest },
    )
}

/// `mavlink::write_v2_msg` writes a message as an unsigned version 2 frame; writing to a
/// vector does not fail. A payload has at most 255 bytes, and the number of a message's kind fits
/// the three bytes that the frame has for it. The payload holds the message's fields. What
/// `MavMessage::parse` reads from the payload of the frame, if it accepts it, is sent with that
/// payload again.
#[verifier::external_body]
pub(crate) fn write_v2(header: MavHeader, message: &MavMessage) -> (r: Vec<u8>)
    ensures
        r@ == seq![0xFDu8] + frame_body(header, message_id_of(*message), message_payload(*message))
            + frame_checksum(
            message_id_of(*message),
            frame_body(header, message_id_of(*message), message_payload(*message)),
        ),
        r@.len() == message_payload(*message).len() + 12,
        r@.len() <= 267,
        r@[7] + 256 * r@[8] + 65536 * r@[9] == message_id_of(*message),
        message_content(*message) == fields_at(
            message_id_of(*message),
            r@.subrange(10, r@.len() - 2),
        ),
        parses(true, message_id_of(*message), r@.subrange(10, r@.len() - 2)) ==> parsed_payload(
            true,
            message_id_of(*message),
            r@.subrange(10, r@.len() - 2),
        ) == message_payload(*message),
{
    let header = mavlink::MavHeader {
        system_id: header.system_id,
        component_id: header.component_id,
        sequence: header.sequence,
    };
    let mut bytes = Vec::new();
    let _ = mavlink::write_v2_msg(&mut bytes, header, message);
    bytes
}

/// `MavMessage::parse` reads a payload; left-out trailing bytes count as zeros. It refuses
/// unknown kinds of message and field values that the dialect does not define. The message that it
/// reads depends on its arguments alone.
#[verifier::external_body]
pub(crate) fn parse_message(version: MavlinkVersion, id: u32, payload: &[u8]) -> (r: Result<
    MavMessage,
    mavlink::error::ParserError,
>)
    ensures
        r is Ok <==> parses(version == MavlinkVersion::V2, id, payload@),
        r matches Ok(message) ==> {
            &&& message_id_of(message) == id
            &&& message_content(message) == fields_at(id, payload@)
            &&& message_payload(message) == parsed_payload(
                version == MavlinkVersion::V2,
                id,
                payload@,
            )
        },
{
    let version = match version {
        MavlinkVersion::V1 => mavlink::MavlinkVersion::V1,
        MavlinkVersion::V2 => mavlink::MavlinkVersion::V2,
    };
    <MavMessage as mavlink::Message>::parse(version, id, payload)
}

/// Matching on a `MavMessage` shows its data. A command's second parameter comes as the bits
/// that the payload holds; if they are those of no number, nothing is said of them.
#[verifier::external_body]
pub(crate) fn message_fields(message: &MavMessage) -> (r: Message)
    ensures
        r@ == message_content(*message),
{
    match message {
        MavMessage::HEARTBEAT(data) => Message::Heartbeat { base_mode: data.base_mode.bits() },
        MavMessage::COMMAND_LONG(data) => Message::CommandLong(
            CommandLong {
                target_system: data.target_system,
                target_component: data.target_component,
                command: data.command as u32,
                param2_bits: data.param2.to_bits(),
            },
        ),
        MavMessage::CAMERA_INFORMATION(data) => Message::CameraInformation { flags: data.flags.bits() },
        MavMessage::VIDEO_STREAM_INFORMATION(data) => Message::VideoStreamInformation { name: data.name.to_vec() },
        _ => Message::Other,
    }
}

/// A frame carries the length of its payload, its number, its sender, its kind and its payload in
/// fixed places.
pub proof fn lemma_frame_header(header: MavHeader, id: u32, payload: Seq<u8>)
    ensures
        v2_frame(header, id, payload)[0] == 0xFD,
        v2_frame(header, id, payload)[1] == payload.len() as u8,
        v2_frame(header, id, payload)[4] == header.sequence,
        v2_frame(header, id, payload)[5] == header.system_id,
        v2_frame(header, id, payload)[6] == header.component_id,
        v2_frame(header, id, payload)[7] == id % 256,
        v2_frame(header, id, payload)[8] == id / 256 % 256,
        v2_frame(header, id, payload)[9] == id / 65536 % 256,
        v2_frame(header, id, payload).subrange(10, 10 + payload.len() as int) == payload,
{
    assert(v2_frame(header, id, payload).subrange(10, 10 + payload.len() as int) =~= payload);
}

/// Leaving out trailing zeros changes no field of a payload.
pub proof fn lemma_trimmed_reads_alike(payload: Seq<u8>, i: int)
    ensures
        byte_at(trimmed(payload), i) == byte_at(payload, i),
    decreases payload.len(),
{
    if payload.len() > 1 && payload.last() == 0 {
        lemma_trimmed_reads_alike(payload.drop_last(), i);
    }
}

/// A command reads back as that command for its target.
pub proof fn lemma_command_reads_back(
    target_system: u8,
    target_component: u8,
    command: MavCmd,
    param1: u16,
)
    ensures
        fields_at(
            COMMAND_LONG_ID,
            command_payload(target_system, target_component, command, param1),
        ) == (MessageModel::CommandLong {
            target_system,
            target_component,
            command: command.code() as u32,
            param2_bits: Some(0),
        }),
{
    let whole = le32(float_bits(param1)) + zeros(24) + le16(command.code()) + seq![
        target_system,
        target_component,
        0u8,
    ];
    lemma_trimmed_reads_alike(whole, 4);
    lemma_trimmed_reads_alike(whole, 5);
    lemma_trimmed_reads_alike(whole, 6);
    lemma_trimmed_reads_alike(whole, 7);
    lemma_trimmed_reads_alike(whole, 28);
    lemma_trimmed_reads_alike(whole, 29);
    lemma_trimmed_reads_alike(whole, 30);
    lemma_trimmed_reads_alike(whole, 31);
    assert(u32_at(whole, 4) == 0);
    assert(u16_at(whole, 28) == command.code());
    assert(byte_at(whole, 30) == target_system);
    assert(byte_at(whole, 31) == target_component);
}

/// The numbers of the commands and of the result are those of the MAVLink dialect.
pub proof fn lemma_codes()
    ensures
        MavCmd::RequestMessage.code() == 512,
        MavCmd::RequestCameraCaptureStatus.code() == 527,
        MavCmd::VideoStartCapture.code() == 2500,
        MavCmd::VideoStopCapture.code() == 2501,
        MavResult::Accepted.code() == 0,
{
}

/// Numbers are read back as they were laid out.
pub proof fn lemma_numbers_read_back(before: Seq<u8>, n: u16, m: u32, after: Seq<u8>)
    ensures
        u16_at(before + le16(n) + after, before.len() as int) == n,
        u32_at(before + le32(m) + after, before.len() as int) == m,
{
    let i = before.len() as int;
    let short = before + le16(n) + after;
    let long = before + le32(m) + after;
    assert(short[i] == le16(n)[0] && short[i + 1] == le16(n)[1]);
    assert(long[i] == le32(m)[0] && long[i + 1] == le32(m)[1] && long[i + 2] == le32(m)[2] && long[i
        + 3] == le32(m)[3]);
}

/// Trimming makes no payload longer.
pub proof fn lemma_trimmed_length(payload: Seq<u8>)
    ensures
        trimmed(payload).len() <= payload.len(),
    decreases payload.len(),
{
    if payload.len() > 1 && payload.last() == 0 {
        lemma_trimmed_length(payload.drop_last());
    }
}

/// An acknowledgement holds the number of the command that it is for and the result, zero for
/// accepted.
pub proof fn lemma_ack_payload(command: MavCmd, result: MavResult)
    ensures
        ({
            let payload = ack_payload(command, result);
            &&& payload.len() <= 3
            &&& u16_at(payload, 0) == (match command {
                MavCmd::RequestMessage => 512int,
                MavCmd::RequestCameraCaptureStatus => 527int,
                MavCmd::VideoStartCapture => 2500int,
                MavCmd::VideoStopCapture => 2501int,
            })
            &&& byte_at(payload, 2) == 0
        }),
{
    let whole = le16(command.code()).push(result.code());
    lemma_trimmed_length(whole);
    lemma_trimmed_reads_alike(whole, 0);
    lemma_trimmed_reads_alike(whole, 1);
    lemma_trimmed_reads_alike(whole, 2);
    assert(u16_at(whole, 0) == command.code());
    assert(byte_at(whole, 2) == result.code());
}

/// A capture status holds the time since boot, the time of the recording and both states in their
/// places, and zeros elsewhere.
pub proof fn lemma_status_payload(
    time_boot_ms: u32,
    recording_time_ms: u32,
    image_status: u8,
    video_status: u8,
)
    ensures
        ({
            let payload = status_payload(
                time_boot_ms,
                recording_time_ms,
                image_status,
                video_status,
            );
            &&& payload.len() <= 18
            &&& u32_at(payload, 0) == time_boot_ms
            &&& u32_at(payload, 4) == 0
            &&& u32_at(payload, 8) == recording_time_ms
            &&& u32_at(payload, 12) == 0
            &&& byte_at(payload, 16) == image_status
            &&& byte_at(payload, 17) == video_status
        }),
{
    let whole = le32(time_boot_ms) + zeros(4) + le32(recording_time_ms) + zeros(4) + seq![
        image_status,
        video_status,
    ];
    let payload = trimmed(whole);
    lemma_trimmed_length(whole);
    assert forall|i: int| #[trigger] byte_at(payload, i) == byte_at(whole, i) by {
        lemma_trimmed_reads_alike(whole, i);
    }
    assert(byte_at(whole, 0) == le32(time_boot_ms)[0]);
    assert(byte_at(whole, 1) == le32(time_boot_ms)[1]);
    assert(byte_at(whole, 2) == le32(time_boot_ms)[2]);
    assert(byte_at(whole, 3) == le32(time_boot_ms)[3]);
    assert(byte_at(whole, 8) == le32(recording_time_ms)[0]);
    assert(byte_at(whole, 9) == le32(recording_time_ms)[1]);
    assert(byte_at(whole, 10) == le32(recording_time_ms)[2]);
    assert(byte_at(whole, 11) == le32(recording_time_ms)[3]);
    assert(u32_at(payload, 0) == time_boot_ms);
    assert(u32_at(payload, 8) == recording_time_ms);
}

/// A command's payload holds its first parameter in front.
pub proof fn lemma_command_payload(
    target_system: u8,
    target_component: u8,
    command: MavCmd,
    param1: u16,
)
    ensures
        ({
            let payload = command_payload(target_system, target_component, command, param1);
            &&& payload.len() <= 33
            &&& u32_at(payload, 0) == float_bits(param1)
            &&& byte_at(payload, 32) == 0
        }),
{
    let whole = le32(float_bits(param1)) + zeros(24) + le16(command.code()) + seq![
        target_system,
        target_component,
        0u8,
    ];
    lemma_trimmed_length(whole);
    lemma_trimmed_reads_alike(whole, 0);
    lemma_trimmed_reads_alike(whole, 1);
    lemma_trimmed_reads_alike(whole, 2);
    lemma_trimmed_reads_alike(whole, 3);
    lemma_trimmed_reads_alike(whole, 32);
    assert(u32_at(whole, 0) == float_bits(param1));
}

/// Where a payload of each kind holds what this program reads from it.
pub proof fn lemma_fields(payload: Seq<u8>)
    requires
        payload.len() >= 235,
    ensures
        fields_at(0, payload) == (MessageModel::Heartbeat { base_mode: payload[6] }),
        fields_at(76, payload) matches MessageModel::CommandLong {
            target_system,
            target_component,
            command,
            param2_bits,
        } && target_system == payload[30] && target_component == payload[31] && command
            == payload[28] + 256 * payload[29] && (param2_bits matches Some(bits) ==> bits
            == payload[4] + 256 * payload[5] + 65536 * payload[6] + 16777216 * payload[7]),
        fields_at(259, payload) matches MessageModel::CameraInformation { flags } && flags
            == payload[20] + 256 * payload[21] + 65536 * payload[22] + 16777216 * payload[23],
        fields_at(269, payload) matches MessageModel::VideoStreamInformation { name } && name
            == payload.subrange(21, 53),
        forall|id: u32|
            id != 0 && id != 76 && id != 259 && id != 269 ==> #[trigger] fields_at(id, payload)
                == MessageModel::Other,
{
    assert(fields_at(269, payload)->name =~= payload.subrange(21, 53));
}

/// The bits of a single-precision number are those of no number exactly if the exponent is all ones
/// and the fraction is not zero.
pub proof fn lemma_no_numbers(bits: u32)
    ensures
        number_bits(bits) is None <==> bits / 0x80_0000 % 256 == 255 && bits % 0x80_0000 != 0,
        number_bits(bits) is Some ==> number_bits(bits)->Some_0 == bits,
{
}

} // verus!
