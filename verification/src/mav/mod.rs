//! MAVLink traffic: what arms the recorder and how cameras are found and answered.
pub mod camera;
pub mod frame;
pub mod topic_gate;
pub mod vehicle;
pub mod wire;
pub mod worker;

use vstd::prelude::*;

use crate::mav::frame::Packet;
use crate::mav::vehicle::{ArmState, VehicleArmGate};
use crate::mav::wire::{
    command_long_message, message_fields, parse_message, write_v2, MavCmd, MavHeader, Message,
    HEARTBEAT_ID,
};
use crate::service::SystemAndComponent;

verus! {

/// The topic on which frames from the vehicle are published.
pub const RAW_MAVLINK_OUT_TOPIC: &'static str = "mavlink_raw/out";

/// The topic on which frames for the vehicle are published.
pub const RAW_MAVLINK_IN_TOPIC: &'static str = "mavlink_raw/in";

/// The component of a vehicle that flies it.
pub const AUTOPILOT_COMPONENT: u8 = 1;

/// What a frame says; none if its checksum or its payload is wrong.
pub open spec fn decoded(packet: Packet) -> Option<crate::mav::wire::MessageModel> {
    if packet.crc_valid && crate::mav::wire::parses(
        packet.version == crate::mav::wire::MavlinkVersion::V2,
        packet.message_id,
        packet.payload@,
    ) {
        Some(crate::mav::wire::fields_at(packet.message_id, packet.payload@))
    } else {
        None
    }
}

/// What a frame says; none if its checksum or its payload is wrong.
pub fn decode(packet: &Packet) -> (r: Option<Message>)
    ensures
        match r {
            Some(message) => decoded(*packet) == Some(message@),
            None => decoded(*packet) is None,
        },
{
    if !packet.crc_valid {
        return None;
    }
    match parse_message(packet.version, packet.message_id, packet.payload.as_slice()) {
        Ok(message) => Some(message_fields(&message)),
        Err(_) => None,
    }
}

/// The frame is that of the message. It holds the message's payload, and if that payload can be
/// read, reading it gives it back.
pub open spec fn encodes(
    header: MavHeader,
    message: mavlink::ardupilotmega::MavMessage,
    frame: Seq<u8>,
) -> bool {
    let id = crate::mav::wire::message_id_of(message);
    let payload = crate::mav::wire::message_payload(message);
    &&& frame == crate::mav::wire::v2_frame(header, id, payload)
    &&& frame.len() == payload.len() + 12
    &&& frame.len() == 12 + frame[1]
    &&& frame[7] + 256 * frame[8] + 65536 * frame[9] == id
    &&& frame.subrange(10, frame.len() - 2) == payload
    &&& crate::mav::wire::message_content(message) == crate::mav::wire::fields_at(id, payload)
    &&& crate::mav::wire::parses(true, id, payload) ==> crate::mav::wire::parsed_payload(
        true,
        id,
        payload,
    ) == payload
}

/// Writes a message as a frame.
pub fn encode(header: MavHeader, message: &mavlink::ardupilotmega::MavMessage) -> (r: Vec<u8>)
    ensures
        encodes(header, *message, r@),
{
    let r = write_v2(header, message);
    proof {
        crate::mav::wire::lemma_frame_header(
            header,
            crate::mav::wire::message_id_of(*message),
            crate::mav::wire::message_payload(*message),
        );
    }
    r
}

/// The next sequence number; after 255 comes 0.
pub open spec fn next_in_sequence(sequence: u8) -> u8 {
    if sequence == 255 {
        0
    } else {
        (sequence + 1) as u8
    }
}

/// Sends `command` with its first parameter to `target` in the name of `source`, and moves
/// `sequence` on. The payload of the frame can be read, and reading it gives it back.
pub fn encode_command_long(
    source: SystemAndComponent,
    sequence: &mut u8,
    target: SystemAndComponent,
    command: MavCmd,
    param1: u16,
) -> (r: Vec<u8>)
    ensures
        *final(sequence) == next_in_sequence(*old(sequence)),
        r@ == command_frame(source, *old(sequence), target, command, param1),
        r@.subrange(10, r@.len() - 2) == crate::mav::wire::command_payload(
            target.system_id,
            target.component_id,
            command,
            param1,
        ),
        crate::mav::wire::parses(
            true,
            crate::mav::wire::COMMAND_LONG_ID,
            r@.subrange(10, r@.len() - 2),
        ),
        crate::mav::wire::parsed_payload(
            true,
            crate::mav::wire::COMMAND_LONG_ID,
            r@.subrange(10, r@.len() - 2),
        ) == r@.subrange(10, r@.len() - 2),
{
    let header = MavHeader {
        system_id: source.system_id,
        component_id: source.component_id,
        sequence: *sequence,
    };
    *sequence = sequence.wrapping_add(1);
    encode(
        header,
        &command_long_message(target.system_id, target.component_id, command, param1),
    )
}

/// The frame that sends a command to `target`.
pub open spec fn command_frame(
    source: SystemAndComponent,
    sequence: u8,
    target: SystemAndComponent,
    command: MavCmd,
    param1: u16,
) -> Seq<u8> {
    crate::mav::wire::v2_frame(
        MavHeader { system_id: source.system_id, component_id: source.component_id, sequence },
        crate::mav::wire::COMMAND_LONG_ID,
        crate::mav::wire::command_payload(
            target.system_id,
            target.component_id,
            command,
            param1,
        ),
    )
}

/// The frame that asks `target` for a message.
pub open spec fn request_frame(
    source: SystemAndComponent,
    sequence: u8,
    target: SystemAndComponent,
    message_id: u16,
) -> Seq<u8> {
    command_frame(source, sequence, target, MavCmd::RequestMessage, message_id)
}

/// Whether a frame is a heartbeat of an autopilot.
pub open spec fn is_autopilot_heartbeat(packet: Packet) -> bool {
    packet.message_id == HEARTBEAT_ID && packet.component_id == AUTOPILOT_COMPONENT
}

/// Whether a frame with this header is a heartbeat of an autopilot; only then its checksum matters.
pub fn needs_checksum(message_id: u32, component_id: u8) -> (r: bool)
    ensures
        r == (message_id == HEARTBEAT_ID && component_id == AUTOPILOT_COMPONENT),
{
    message_id == HEARTBEAT_ID && component_id == AUTOPILOT_COMPONENT
}

/// The state after a frame, and what is reported.
pub open spec fn handled(
    packet: Option<Packet>,
    before: bool,
    after: bool,
    r: Option<ArmState>,
) -> bool {
    match packet {
        Some(packet) if is_autopilot_heartbeat(packet) && decoded(packet) is Some => {
            &&& after == crate::mav::vehicle::armed_mode(
                crate::mav::wire::byte_at(packet.payload@, 6),
            )
            &&& r == crate::mav::vehicle::change(before, after)
        },
        _ => r is None && after == before,
    }
}

/// A frame, if there is one.
pub open spec fn optional_packet(packet: Option<&Packet>) -> Option<Packet> {
    match packet {
        Some(packet) => Some(*packet),
        None => None,
    }
}

/// Lets a valid heartbeat of an autopilot change whether the vehicle counts as armed. Anything else, and bytes that
/// are no frame at all, is skipped.
pub fn handle_mavlink_message(packet: Option<&Packet>, vehicle_arm: &mut VehicleArmGate) -> (r:
    Option<ArmState>)
    ensures
        handled(optional_packet(packet), old(vehicle_arm)@, final(vehicle_arm)@, r),
        match packet {
            Some(packet) if is_autopilot_heartbeat(*packet) && decoded(*packet) is Some => {
                &&& final(vehicle_arm)@ == crate::mav::vehicle::armed_mode(
                    crate::mav::wire::byte_at(packet.payload@, 6),
                )
                &&& r == crate::mav::vehicle::change(old(vehicle_arm)@, final(vehicle_arm)@)
            },
            _ => r is None && *final(vehicle_arm) == *old(vehicle_arm),
        },
{
    match packet {
        Some(packet) => {
            if !needs_checksum(packet.message_id, packet.component_id) {
                return None;
            }
            match decode(packet) {
                Some(Message::Heartbeat { base_mode }) => crate::mav::vehicle::on_heartbeat(
                    vehicle_arm,
                    base_mode,
                ),
                _ => None,
            }
        },
        None => None,
    }
}

/// Sequence numbers go up by one, modulo 256.
pub proof fn lemma_next_in_sequence(sequence: u8)
    ensures
        next_in_sequence(sequence) == (sequence + 1) % 256,
{
}

/// A frame that sends a command names its sender and its place in the sender's sequence, is of the
/// kind for commands, and holds the target, the number of the command and its first parameter.
pub proof fn lemma_command_frame(
    source: SystemAndComponent,
    sequence: u8,
    target: SystemAndComponent,
    command: MavCmd,
    param1: u16,
)
    ensures
        ({
            let frame = command_frame(source, sequence, target, command, param1);
            let payload = frame.subrange(10, 10 + frame[1] as int);
            &&& frame[0] == 0xFD
            &&& frame[4] == sequence
            &&& frame[5] == source.system_id
            &&& frame[6] == source.component_id
            &&& frame[7] + 256 * frame[8] + 65536 * frame[9] == 76
            &&& crate::mav::wire::u32_at(payload, 0) == crate::mav::wire::float_bits(param1)
            &&& crate::mav::wire::u16_at(payload, 28) == (match command {
                MavCmd::RequestMessage => 512int,
                MavCmd::RequestCameraCaptureStatus => 527int,
                MavCmd::VideoStartCapture => 2500int,
                MavCmd::VideoStopCapture => 2501int,
            })
            &&& crate::mav::wire::byte_at(payload, 30) == target.system_id
            &&& crate::mav::wire::byte_at(payload, 31) == target.component_id
        }),
{
    let header = MavHeader {
        system_id: source.system_id,
        component_id: source.component_id,
        sequence,
    };
    let payload = crate::mav::wire::command_payload(
        target.system_id,
        target.component_id,
        command,
        param1,
    );
    crate::mav::wire::lemma_frame_header(header, crate::mav::wire::COMMAND_LONG_ID, payload);
    crate::mav::wire::lemma_command_payload(
        target.system_id,
        target.component_id,
        command,
        param1,
    );
    crate::mav::wire::lemma_command_reads_back(
        target.system_id,
        target.component_id,
        command,
        param1,
    );
    let model = crate::mav::wire::fields_at(crate::mav::wire::COMMAND_LONG_ID, payload);
    assert(model->command == crate::mav::wire::u16_at(payload, 28) as u32);
    assert(0 <= crate::mav::wire::u16_at(payload, 28) < 65536);
}

/// What the frame of a valid heartbeat of an autopilot says: armed exactly if the base mode, the
/// seventh byte of the payload, is at least 128. Every other frame, one with a wrong checksum or
/// one that cannot be read among them, and bytes that are no frame leave the state as it is.
pub proof fn lemma_heartbeats_decide(
    packet: Option<Packet>,
    before: bool,
    after: bool,
    r: Option<ArmState>,
)
    requires
        handled(packet, before, after, r),
    ensures
        after != before ==> {
            &&& packet is Some
            &&& packet->Some_0.message_id == 0
            &&& packet->Some_0.component_id == 1
            &&& packet->Some_0.crc_valid
        },
        packet is Some && packet->Some_0.message_id == 0 && packet->Some_0.component_id == 1
            && packet->Some_0.crc_valid && packet->Some_0.payload@.len() > 6
            && crate::mav::wire::parses(
            packet->Some_0.version == crate::mav::wire::MavlinkVersion::V2,
            0,
            packet->Some_0.payload@,
        ) ==> (after <==> packet->Some_0.payload@[6] >= 128),
        r == Some(ArmState::Armed) <==> !before && after,
        r == Some(ArmState::Disarmed) <==> before && !after,
{
    if packet is Some && packet->Some_0.payload@.len() > 6 {
        crate::mav::vehicle::lemma_armed_flag(packet->Some_0.payload@[6]);
    }
}

/// A frame says something exactly if its checksum fits and its payload can be read, and it says
/// what its payload holds.
pub proof fn lemma_decoded(packet: Packet)
    ensures
        decoded(packet) is Some <==> packet.crc_valid && crate::mav::wire::parses(
            packet.version == crate::mav::wire::MavlinkVersion::V2,
            packet.message_id,
            packet.payload@,
        ),
        decoded(packet) is Some ==> decoded(packet)->Some_0 == crate::mav::wire::fields_at(
            packet.message_id,
            packet.payload@,
        ),
{
}

/// Only the checksum of a heartbeat, kind 0, of an autopilot, component 1, is looked at.
pub proof fn lemma_checksums_needed(message_id: u32, component_id: u8, r: bool)
    requires
        call_ensures(needs_checksum, (message_id, component_id), r),
    ensures
        r <==> message_id == 0 && component_id == 1,
{
}

/// A frame with a fitting checksum and a readable payload is decoded, and no other is.
pub proof fn lemma_frames_are_decoded(packet: &Packet, r: Option<Message>)
    requires
        call_ensures(decode, (packet,), r),
    ensures
        r is Some <==> packet.crc_valid && crate::mav::wire::parses(
            packet.version == crate::mav::wire::MavlinkVersion::V2,
            packet.message_id,
            packet.payload@,
        ),
        r is Some && packet.message_id == 0 ==> r->Some_0@
            == (crate::mav::wire::MessageModel::Heartbeat {
            base_mode: crate::mav::wire::byte_at(packet.payload@, 6),
        }),
        r is Some && packet.message_id != 0 && packet.message_id != 76 && packet.message_id != 259
            && packet.message_id != 269 ==> r->Some_0@ == crate::mav::wire::MessageModel::Other,
{
    lemma_decoded(*packet);
}

/// Frames arm and disarm the vehicle by the heartbeats of its autopilot alone.
pub proof fn lemma_frames_arm(
    packet: Option<&Packet>,
    gate: &mut VehicleArmGate,
    r: Option<ArmState>,
)
    requires
        call_ensures(handle_mavlink_message, (packet, gate), r),
    ensures
        packet is None ==> final(gate)@ == old(gate)@,
        packet is Some && (packet->Some_0.message_id != 0 || packet->Some_0.component_id != 1
            || !packet->Some_0.crc_valid) ==> final(gate)@ == old(gate)@,
        packet is Some && packet->Some_0.message_id == 0 && packet->Some_0.component_id == 1
            && packet->Some_0.crc_valid && packet->Some_0.payload@.len() > 6
            && crate::mav::wire::parses(
            packet->Some_0.version == crate::mav::wire::MavlinkVersion::V2,
            0,
            packet->Some_0.payload@,
        ) ==> (final(gate)@ <==> packet->Some_0.payload@[6] >= 128),
        r == Some(ArmState::Armed) <==> !old(gate)@ && final(gate)@,
        r == Some(ArmState::Disarmed) <==> old(gate)@ && !final(gate)@,
{
    lemma_heartbeats_decide(optional_packet(packet), old(gate)@, final(gate)@, r);
}

/// A command is sent to its target in the name of its source, and the numbers go on.
pub proof fn lemma_commands_are_sent(
    source: SystemAndComponent,
    sequence: &mut u8,
    target: SystemAndComponent,
    command: MavCmd,
    param1: u16,
    r: Vec<u8>,
)
    requires
        call_ensures(encode_command_long, (source, sequence, target, command, param1), r),
    ensures
        *final(sequence) == (*old(sequence) + 1) % 256,
        r@[4] == *old(sequence),
        r@[5] == source.system_id,
        r@[6] == source.component_id,
        r@[7] + 256 * r@[8] + 65536 * r@[9] == 76,
        ({
            let payload = r@.subrange(10, 10 + r@[1] as int);
            &&& crate::mav::wire::u32_at(payload, 0) == crate::mav::wire::float_bits(param1)
            &&& crate::mav::wire::byte_at(payload, 30) == target.system_id
            &&& crate::mav::wire::byte_at(payload, 31) == target.component_id
        }),
{
    lemma_command_frame(source, *old(sequence), target, command, param1);
}

} // verus!
