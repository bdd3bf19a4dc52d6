//! What the recorder knows from MAVLink traffic.
use vstd::prelude::*;

use crate::mav::camera::discoverer::CameraDiscoverer;
use crate::mav::camera::set::CameraSet;
use crate::mav::camera::stream::{Clock, VideoStream};
use crate::mav::camera::{
    on_camera_information, on_command_long, on_heartbeat, on_video_stream_information,
    CommandReplies,
};
use crate::mav::frame::Packet;
use crate::mav::{handle_mavlink_message, AUTOPILOT_COMPONENT};
use crate::mav::vehicle::{ArmState, VehicleArmGate};
use crate::mav::wire::Message;
use crate::service::SystemAndComponent;
use crate::text_map::TextMap;

verus! {

/// How many payloads may wait for the worker; more are dropped.
pub const MAVLINK_QUEUE_CAPACITY: usize = 512;

/// Whether the vehicle is armed, which components are asked whether they are cameras, which cameras
/// capture video, and the streams they have.
pub struct MavlinkWorker {
    pub vehicle_arm: VehicleArmGate,
    pub discoverer: CameraDiscoverer,
    pub recording_capable: CameraSet,
    pub video_streams: TextMap<VideoStream>,
}

/// Whether the stream on a topic records; a topic without a stream does not.
pub open spec fn records_video(streams: Map<Seq<char>, VideoStream>, topic: Seq<char>) -> bool {
    streams.contains_key(topic) && streams[topic].is_recording
}

impl MavlinkWorker {
    /// The cameras and the streams are in order.
    pub open spec fn wf(&self) -> bool {
        &&& self.discoverer.state.wf()
        &&& self.recording_capable.wf()
        &&& self.video_streams.wf()
    }

    /// A disarmed vehicle without cameras.
    pub fn new() -> (r: Self)
        ensures
            r.wf(),
            !r.vehicle_arm@,
            r.discoverer.state.cameras@ == Set::<SystemAndComponent>::empty(),
            r.discoverer.state.source == (SystemAndComponent { system_id: 255, component_id: 190 }),
            r.discoverer.state.sequence == 0,
            r.recording_capable@ == Set::<SystemAndComponent>::empty(),
            r.video_streams@ == Map::<Seq<char>, VideoStream>::empty(),
    {
        MavlinkWorker {
            vehicle_arm: VehicleArmGate::new(),
            discoverer: CameraDiscoverer::new(),
            recording_capable: CameraSet::new(),
            video_streams: TextMap::new(),
        }
    }

    /// Whether the vehicle is armed.
    pub fn is_armed(&self) -> (r: bool)
        ensures
            r == self.vehicle_arm@,
    {
        self.vehicle_arm.is_armed()
    }

    /// Whether the stream on `topic` records.
    pub fn is_video_recording(&self, topic: &str) -> (r: bool)
        requires
            self.wf(),
        ensures
            r == records_video(self.video_streams@, topic@),
    {
        match self.video_streams.get(topic) {
            Some(stream) => stream.is_recording,
            None => false,
        }
    }

    /// Takes over what a frame says of the vehicle; bytes that are no frame say nothing.
    pub fn on_packet(&mut self, packet: Option<&Packet>) -> (r: Option<ArmState>)
        ensures
            crate::mav::handled(
                crate::mav::optional_packet(packet),
                old(self).vehicle_arm@,
                final(self).vehicle_arm@,
                r,
            ),
            final(self).discoverer == old(self).discoverer,
            final(self).recording_capable == old(self).recording_capable,
            final(self).video_streams == old(self).video_streams,
            match packet {
                Some(packet) if crate::mav::is_autopilot_heartbeat(*packet)
                    && crate::mav::decoded(*packet) is Some => {
                    &&& final(self).vehicle_arm@ == crate::mav::vehicle::armed_mode(
                        crate::mav::wire::byte_at(packet.payload@, 6),
                    )
                    &&& r == crate::mav::vehicle::change(
                        old(self).vehicle_arm@,
                        final(self).vehicle_arm@,
                    )
                },
                _ => r is None && *final(self) == *old(self),
            },
    {
        handle_mavlink_message(packet, &mut self.vehicle_arm)
    }

    /// Takes over what `camera` says of itself and of its streams, and answers commands. A component
    /// other than the autopilot that sends heartbeats is asked from then on whether it is a camera.
    /// `interval_ms` is how often the sender of a command wants to hear of a recording that it
    /// starts.
    pub fn on_camera_message(
        &mut self,
        camera: SystemAndComponent,
        message: &Message,
        interval_ms: u64,
        clock: Clock,
    ) -> (r: CommandReplies)
        requires
            old(self).wf(),
        ensures
            final(self).wf(),
            final(self).vehicle_arm == old(self).vehicle_arm,
            final(self).discoverer.state.cameras@ == (if message is Heartbeat && camera.component_id
                != AUTOPILOT_COMPONENT {
                old(self).discoverer.state.cameras@.insert(camera)
            } else {
                old(self).discoverer.state.cameras@
            }),
            final(self).discoverer.state.source == old(self).discoverer.state.source,
            final(self).discoverer.state.sequence == old(self).discoverer.state.sequence,
            match *message {
                Message::CameraInformation { flags } => {
                    &&& final(self).recording_capable@ == crate::mav::camera::capable_after(
                        old(self).recording_capable@,
                        camera,
                        flags,
                    )
                    &&& final(self).video_streams == old(self).video_streams
                },
                Message::VideoStreamInformation { name } => {
                    &&& final(self).recording_capable == old(self).recording_capable
                    &&& crate::mav::camera::stream_noted(
                        camera,
                        name@,
                        old(self).recording_capable@,
                        old(self).video_streams,
                        final(self).video_streams,
                    )
                },
                Message::CommandLong(data) => {
                    &&& final(self).recording_capable == old(self).recording_capable
                    &&& crate::mav::camera::commanded(
                        data,
                        interval_ms,
                        clock,
                        old(self).video_streams,
                        final(self).video_streams,
                        r,
                    )
                },
                _ => {
                    &&& final(self).recording_capable == old(self).recording_capable
                    &&& final(self).video_streams == old(self).video_streams
                },
            },
            !(message is CommandLong) ==> r.frames@.len() == 0 && r.tasks@.len() == 0,
    {
        match message {
            Message::Heartbeat { .. } => {
                if camera.component_id != AUTOPILOT_COMPONENT {
                    let _ = on_heartbeat(&mut self.discoverer, camera);
                }
            },
            Message::CameraInformation { flags } => on_camera_information(
                camera,
                *flags,
                &mut self.recording_capable,
            ),
            Message::VideoStreamInformation { name } => on_video_stream_information(
                camera,
                name,
                &self.recording_capable,
                &mut self.video_streams,
            ),
            Message::CommandLong(data) => {
                return on_command_long(data, interval_ms, &mut self.video_streams, clock);
            },
            Message::Other => {},
        }
        CommandReplies { frames: Vec::new(), tasks: Vec::new() }
    }
}

/// A topic has a recording exactly if there is a stream on it and that stream records; other
/// streams do not matter.
pub proof fn lemma_only_the_own_stream_matters(
    streams: Map<Seq<char>, VideoStream>,
    topic: Seq<char>,
    other: Seq<char>,
    stream: VideoStream,
)
    ensures
        !streams.contains_key(topic) ==> !records_video(streams, topic),
        streams.contains_key(topic) ==> records_video(streams, topic)
            == streams[topic].is_recording,
        other != topic ==> records_video(streams.insert(other, stream), topic) == records_video(
            streams,
            topic,
        ),
        records_video(streams.insert(topic, stream), topic) == stream.is_recording,
{
}

/// At first the vehicle is disarmed, and there are no cameras and no streams.
pub proof fn lemma_worker_begins(r: MavlinkWorker, camera: SystemAndComponent, topic: Seq<char>)
    requires
        call_ensures(MavlinkWorker::new, (), r),
    ensures
        !r.vehicle_arm@,
        !r.discoverer.state.cameras@.contains(camera),
        !r.recording_capable@.contains(camera),
        !r.video_streams@.contains_key(topic),
{
}

/// A topic has a recording exactly if there is a stream on it and that stream records.
pub proof fn lemma_recordings_are_looked_up(worker: &MavlinkWorker, topic: &str, r: bool)
    requires
        call_ensures(MavlinkWorker::is_video_recording, (worker, topic), r),
    ensures
        r ==> worker.video_streams@.contains_key(topic@),
        worker.video_streams@.contains_key(topic@) ==> r
            == worker.video_streams@[topic@].is_recording,
{
}

/// Frames change nothing but whether the vehicle is armed, and only heartbeats of its autopilot
/// change that.
pub proof fn lemma_frames_only_arm(
    worker: &mut MavlinkWorker,
    packet: Option<&Packet>,
    r: Option<ArmState>,
)
    requires
        call_ensures(MavlinkWorker::on_packet, (worker, packet), r),
    ensures
        final(worker).discoverer == old(worker).discoverer,
        final(worker).recording_capable == old(worker).recording_capable,
        final(worker).video_streams == old(worker).video_streams,
        packet is None ==> final(worker).vehicle_arm@ == old(worker).vehicle_arm@,
        packet is Some && (packet->Some_0.message_id != 0 || packet->Some_0.component_id != 1
            || !packet->Some_0.crc_valid) ==> final(worker).vehicle_arm@ == old(
            worker,
        ).vehicle_arm@,
        packet is Some && packet->Some_0.message_id == 0 && packet->Some_0.component_id == 1
            && packet->Some_0.crc_valid && packet->Some_0.payload@.len() > 6
            && crate::mav::wire::parses(
            packet->Some_0.version == crate::mav::wire::MavlinkVersion::V2,
            0,
            packet->Some_0.payload@,
        ) ==> (final(worker).vehicle_arm@ <==> packet->Some_0.payload@[6] >= 128),
        r == Some(ArmState::Armed) <==> !old(worker).vehicle_arm@ && final(worker).vehicle_arm@,
        r == Some(ArmState::Disarmed) <==> old(worker).vehicle_arm@ && !final(worker).vehicle_arm@,
{
    crate::mav::lemma_heartbeats_decide(
        crate::mav::optional_packet(packet),
        old(worker).vehicle_arm@,
        final(worker).vehicle_arm@,
        r,
    );
}

/// A component other than an autopilot, which is component 1, is asked whether it is a camera once
/// it has sent a heartbeat; no other message makes one known.
pub proof fn lemma_components_become_known(
    worker: &mut MavlinkWorker,
    camera: SystemAndComponent,
    message: &Message,
    interval_ms: u64,
    clock: Clock,
    r: CommandReplies,
    other: SystemAndComponent,
)
    requires
        call_ensures(
            MavlinkWorker::on_camera_message,
            (worker, camera, message, interval_ms, clock),
            r,
        ),
    ensures
        message is Heartbeat && camera.component_id != 1 ==> final(worker).discoverer.state.cameras@.contains(camera),
        !(message is Heartbeat) || camera.component_id == 1 || other != camera ==> (final(worker).discoverer.state.cameras@.contains(other) <==> old(
            worker,
        ).discoverer.state.cameras@.contains(other)),
        final(worker).vehicle_arm == old(worker).vehicle_arm,
{
}

/// Whether a camera captures video changes only when it says so itself, and then by whether its
/// flags are odd.
pub proof fn lemma_cameras_tell_their_flags(
    worker: &mut MavlinkWorker,
    camera: SystemAndComponent,
    message: &Message,
    interval_ms: u64,
    clock: Clock,
    r: CommandReplies,
    other: SystemAndComponent,
)
    requires
        call_ensures(
            MavlinkWorker::on_camera_message,
            (worker, camera, message, interval_ms, clock),
            r,
        ),
    ensures
        message is CameraInformation ==> (final(worker).recording_capable@.contains(camera) <==> (
        message->CameraInformation_flags) % 2 == 1),
        !(message is CameraInformation) || other != camera ==> (final(worker).recording_capable@.contains(other) <==> old(worker).recording_capable@.contains(other)),
{
    if let Message::CameraInformation { flags } = *message {
        crate::mav::camera::lemma_capability(
            old(worker).recording_capable@,
            camera,
            flags,
            other,
        );
    }
}

/// A stream that a camera tells of is taken up, not recording, exactly if the camera captures video,
/// the stream has a name, and its topic is not known. Only such a message and commands change the
/// streams, and only commands are answered.
pub proof fn lemma_cameras_tell_their_streams(
    worker: &mut MavlinkWorker,
    camera: SystemAndComponent,
    message: &Message,
    interval_ms: u64,
    clock: Clock,
    r: CommandReplies,
)
    requires
        call_ensures(
            MavlinkWorker::on_camera_message,
            (worker, camera, message, interval_ms, clock),
            r,
        ),
    ensures
        message is VideoStreamInformation ==> {
            let name = crate::mav::camera::field_text(message->VideoStreamInformation_name@);
            let topic = crate::mav::camera::stream::video_topic(name);
            &&& old(worker).recording_capable@.contains(camera) && name.len() > 0
                ==> final(worker).video_streams@.contains_key(topic)
            &&& !old(worker).video_streams@.contains_key(topic) && final(worker).video_streams@.contains_key(topic) ==> {
                &&& old(worker).recording_capable@.contains(camera)
                &&& name.len() > 0
                &&& final(worker).video_streams@[topic].camera == camera
                &&& !final(worker).video_streams@[topic].is_recording
            }
        },
        !(message is VideoStreamInformation) && !(message is CommandLong) ==> final(worker).video_streams == old(worker).video_streams,
        !(message is CommandLong) ==> r.frames@.len() == 0 && r.tasks@.len() == 0,
{
    if let Message::VideoStreamInformation { name } = *message {
        crate::mav::camera::lemma_streams_are_taken_up(
            camera,
            name@,
            old(worker).recording_capable@,
            old(worker).video_streams,
            final(worker).video_streams,
            crate::mav::camera::stream::video_topic(crate::mav::camera::field_text(name@)),
        );
    }
}

/// After a recording command every stream that it addresses has obeyed and has acknowledged it, and
/// every other stream is as it was.
pub proof fn lemma_streams_obey(
    worker: &mut MavlinkWorker,
    camera: SystemAndComponent,
    message: &Message,
    interval_ms: u64,
    clock: Clock,
    r: CommandReplies,
    i: int,
)
    requires
        call_ensures(
            MavlinkWorker::on_camera_message,
            (worker, camera, message, interval_ms, clock),
            r,
        ),
        message is CommandLong,
        0 <= i < old(worker).video_streams.values@.len(),
    ensures
        ({
            let data = message->CommandLong_0;
            let stream = old(worker).video_streams.values@[i];
            let after = final(worker).video_streams.values@[i];
            let addressed = (data.target_system == 0 || data.target_system
                == stream.camera.system_id) && (data.target_component == 0 || data.target_component
                == stream.camera.component_id);
            let known = data.command == 2500 || data.command == 2501 || data.command == 527;
            &&& addressed && known ==> exists|p: int|
                0 <= p < r.frames@.len() && (#[trigger] r.frames@[p])@[10] + 256 * r.frames@[p]@[11]
                    == data.command && r.frames@[p]@[5] == stream.camera.system_id
                    && r.frames@[p]@[6] == stream.camera.component_id
            &&& addressed && data.command == 2500 ==> after.is_recording && r.tasks@[i] is Start
            &&& addressed && data.command == 2501 ==> !after.is_recording && r.tasks@[i] is Stop
            &&& addressed && data.command == 527 ==> after.is_recording == stream.is_recording
            &&& !addressed || !known ==> after == stream && r.tasks@[i] is Keep
            &&& !known ==> r.frames@.len() == 0
        }),
{
    crate::mav::camera::lemma_commands_are_obeyed(
        message->CommandLong_0,
        interval_ms,
        clock,
        old(worker).video_streams,
        final(worker).video_streams,
        r,
        i,
    );
}

} // verus!
