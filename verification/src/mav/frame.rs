//! MAVLink frames, taken apart.
use vstd::prelude::*;

use crate::mav::wire::{
    parse_message, MavHeader, MavlinkVersion, CAMERA_INFORMATION_ID, COMMAND_LONG_ID, HEARTBEAT_ID,
    VIDEO_STREAM_INFORMATION_ID,
};

verus! {

/// The parts of a frame. `crc_valid` says whether its checksum fits.
#[derive(Debug)]
pub struct Packet {
    pub version: MavlinkVersion,
    pub message_id: u32,
    pub system_id: u8,
    pub component_id: u8,
    pub sequence: u8,
    pub payload: Vec<u8>,
    pub crc_valid: bool,
}

/// Whether messages of a kind matter while the vehicle is disarmed: heartbeats, commands, and
/// what cameras say of themselves and of their streams.
pub open spec fn is_needed(msg_id: u32) -> bool {
    msg_id == HEARTBEAT_ID || msg_id == COMMAND_LONG_ID || msg_id == CAMERA_INFORMATION_ID || msg_id
        == VIDEO_STREAM_INFORMATION_ID
}

/// Whether messages of a kind matter while the vehicle is disarmed: heartbeats, commands, and
/// what cameras say of themselves and of their streams.
pub fn needed_while_disarmed(msg_id: u32) -> (r: bool)
    ensures
        r == is_needed(msg_id),
{
    msg_id == HEARTBEAT_ID || msg_id == COMMAND_LONG_ID || msg_id == CAMERA_INFORMATION_ID
        || msg_id == VIDEO_STREAM_INFORMATION_ID
}

/// The result is what decoding a frame gives: an error exactly if the payload cannot be read, else
/// the frame's header and the message of its payload.
pub open spec fn decodes(
    packet: Packet,
    r: Result<
        (MavHeader, mavlink::ardupilotmega::MavMessage),
        mavlink::error::ParserError,
    >,
) -> bool {
    let version_2 = packet.version == MavlinkVersion::V2;
    &&& r is Ok <==> crate::mav::wire::parses(version_2, packet.message_id, packet.payload@)
    &&& r matches Ok(decoded) ==> {
        &&& decoded.0 == (MavHeader {
            system_id: packet.system_id,
            component_id: packet.component_id,
            sequence: packet.sequence,
        })
        &&& crate::mav::wire::message_id_of(decoded.1) == packet.message_id
        &&& crate::mav::wire::message_content(decoded.1) == crate::mav::wire::fields_at(
            packet.message_id,
            packet.payload@,
        )
        &&& crate::mav::wire::message_payload(decoded.1) == crate::mav::wire::parsed_payload(
            version_2,
            packet.message_id,
            packet.payload@,
        )
    }
}

/// The packet holds the parts of a version 2 frame.
pub open spec fn is_packet_of(packet: Packet, frame: Seq<u8>) -> bool {
    &&& frame.len() >= 12
    &&& packet.version == MavlinkVersion::V2
    &&& packet.sequence == frame[4]
    &&& packet.system_id == frame[5]
    &&& packet.component_id == frame[6]
    &&& packet.message_id == frame[7] + 256 * frame[8] + 65536 * frame[9]
    &&& packet.payload@ == frame.subrange(10, frame.len() - 2)
}

/// The header and the message of a frame.
pub fn decode_mav_message(packet: &Packet) -> (r: Result<
    (MavHeader, mavlink::ardupilotmega::MavMessage),
    mavlink::error::ParserError,
>)
    ensures
        decodes(*packet, r),
{
    let header = MavHeader {
        system_id: packet.system_id,
        component_id: packet.component_id,
        sequence: packet.sequence,
    };
    match parse_message(packet.version, packet.message_id, packet.payload.as_slice()) {
        Ok(message) => Ok((header, message)),
        Err(error) => Err(error),
    }
}

/// Decoding gives back what was encoded. Whenever a message is written as a frame, the frame is
/// taken apart and its payload can be read, decoding the parts gives the same header and a message
/// of the same kind, with the same contents and the same payload. It is an error exactly if the
/// payload cannot be read, as with flags that the dialect does not define.
pub proof fn lemma_round_trip(
    header: MavHeader,
    message: mavlink::ardupilotmega::MavMessage,
    frame: Seq<u8>,
    packet: Packet,
    r: Result<(MavHeader, mavlink::ardupilotmega::MavMessage), mavlink::error::ParserError>,
)
    requires
        crate::mav::encodes(header, message, frame),
        is_packet_of(packet, frame),
        decodes(packet, r),
    ensures
        r is Ok <==> crate::mav::wire::parses(
            true,
            crate::mav::wire::message_id_of(message),
            crate::mav::wire::message_payload(message),
        ),
        r matches Ok(decoded) ==> {
            &&& decoded.0 == header
            &&& crate::mav::wire::message_id_of(decoded.1) == crate::mav::wire::message_id_of(
                message,
            )
            &&& crate::mav::wire::message_content(decoded.1)
                == crate::mav::wire::message_content(message)
            &&& crate::mav::wire::message_payload(decoded.1)
                == crate::mav::wire::message_payload(message)
        },
{
    crate::mav::wire::lemma_frame_header(
        header,
        crate::mav::wire::message_id_of(message),
        crate::mav::wire::message_payload(message),
    );
}

/// While the vehicle is disarmed exactly four kinds of message matter, by their numbers.
pub proof fn lemma_needed_kinds(msg_id: u32)
    ensures
        is_needed(msg_id) <==> set![0u32, 76u32, 259u32, 269u32].contains(msg_id),
{
}

/// While the vehicle is disarmed heartbeats, commands and what cameras say of themselves and of
/// their streams are needed, by their numbers, and nothing else is.
pub proof fn lemma_what_is_needed(msg_id: u32, r: bool)
    requires
        call_ensures(needed_while_disarmed, (msg_id,), r),
    ensures
        r <==> msg_id == 0 || msg_id == 76 || msg_id == 259 || msg_id == 269,
{
    lemma_needed_kinds(msg_id);
}

/// A frame is decoded exactly if its payload can be read, and the header holds who sent the frame and
/// its number.
pub proof fn lemma_headers_are_read(
    packet: &Packet,
    r: Result<(MavHeader, mavlink::ardupilotmega::MavMessage), mavlink::error::ParserError>,
)
    requires
        call_ensures(decode_mav_message, (packet,), r),
    ensures
        r is Ok <==> crate::mav::wire::parses(
            packet.version == MavlinkVersion::V2,
            packet.message_id,
            packet.payload@,
        ),
        r is Ok ==> {
            &&& r->Ok_0.0.system_id == packet.system_id
            &&& r->Ok_0.0.component_id == packet.component_id
            &&& r->Ok_0.0.sequence == packet.sequence
            &&& crate::mav::wire::message_id_of(r->Ok_0.1) == packet.message_id
        },
{
}

} // verus!
