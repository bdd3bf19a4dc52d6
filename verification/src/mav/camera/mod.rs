//! Cameras: which of them can record, which streams they have, and commands for them.
pub mod discoverer;
pub mod set;
pub mod stream;
pub mod watch;

use vstd::prelude::*;

use crate::mav::camera::discoverer::CameraDiscoverer;
use crate::mav::camera::set::CameraSet;
use crate::mav::camera::stream::{
    video_topic_from_name, Clock, TaskChange, VideoStream,
};
use crate::mav::wire::{CommandLong, MavCmd};
use crate::service::SystemAndComponent;
use crate::text::utf8_text;
use crate::text_map::TextMap;

verus! {

/// The cameras heard of once `camera` was heard of, and `camera` if that is news.
pub open spec fn heard(cameras: Set<SystemAndComponent>, camera: SystemAndComponent) -> (
    Set<SystemAndComponent>,
    Option<SystemAndComponent>,
) {
    (
        cameras.insert(camera),
        if cameras.contains(camera) {
            None
        } else {
            Some(camera)
        },
    )
}

/// Notes that `camera` was heard of; returns it if that is news.
pub fn on_heartbeat(discoverer: &mut CameraDiscoverer, camera: SystemAndComponent) -> (r: Option<
    SystemAndComponent,
>)
    requires
        old(discoverer).state.wf(),
    ensures
        final(discoverer).state.wf(),
        (final(discoverer).state.cameras@, r) == heard(old(discoverer).state.cameras@, camera),
        final(discoverer).state.cameras@ == old(discoverer).state.cameras@.insert(camera),
        final(discoverer).state.source == old(discoverer).state.source,
        final(discoverer).state.sequence == old(discoverer).state.sequence,
        r == (if old(discoverer).state.cameras@.contains(camera) {
            None
        } else {
            Some(camera)
        }),
{
    if discoverer.register_camera(camera) {
        Some(camera)
    } else {
        None
    }
}

/// Whether a camera's capability flags say that it captures video.
pub open spec fn captures_video(flags: u32) -> bool {
    flags & 1 == 1
}

/// The cameras that capture video after one has told its capability flags.
pub open spec fn capable_after(
    capable: Set<SystemAndComponent>,
    camera: SystemAndComponent,
    flags: u32,
) -> Set<SystemAndComponent> {
    if captures_video(flags) {
        capable.insert(camera)
    } else {
        capable.remove(camera)
    }
}

/// Takes over whether `camera` captures video.
pub fn on_camera_information(
    camera: SystemAndComponent,
    flags: u32,
    recording_capable: &mut CameraSet,
)
    requires
        old(recording_capable).wf(),
    ensures
        final(recording_capable).wf(),
        final(recording_capable)@ == capable_after(old(recording_capable)@, camera, flags),
{
    let has_capture_video = flags & 1 == 1;
    let already_recording_capable = recording_capable.contains(camera);
    match (has_capture_video, already_recording_capable) {
        (true, false) => {
            let _ = recording_capable.insert(camera);
        },
        (false, true) => {
            recording_capable.remove(camera);
        },
        _ => {
            assert(recording_capable@ =~= (if captures_video(flags) {
                old(recording_capable)@.insert(camera)
            } else {
                old(recording_capable)@.remove(camera)
            }));
        },
    }
}

/// The number of bytes before the first zero byte.
pub open spec fn text_length(bytes: Seq<u8>) -> int
    decreases bytes.len(),
{
    if bytes.len() == 0 || bytes[0] == 0 {
        0
    } else {
        1 + text_length(bytes.skip(1))
    }
}

/// The text of a fixed-size field: what stands before the first zero byte, if that is UTF-8.
pub open spec fn valid_field_text(bytes: Seq<u8>) -> Option<Seq<char>> {
    crate::text::utf8_decoded(bytes.take(text_length(bytes)))
}

/// The text of a fixed-size field. Bytes that are no UTF-8 text count as the empty text.
pub open spec fn field_text(bytes: Seq<u8>) -> Seq<char> {
    match valid_field_text(bytes) {
        Some(text) => text,
        None => seq![],
    }
}

proof fn lemma_text_length(bytes: Seq<u8>, n: int)
    requires
        0 <= n <= bytes.len(),
        n < bytes.len() ==> bytes[n] == 0,
        forall|i: int| 0 <= i < n ==> bytes[i] != 0,
    ensures
        text_length(bytes) == n,
    decreases bytes.len(),
{
    if n > 0 {
        let rest = bytes.skip(1);
        assert(n < bytes.len() ==> rest[n - 1] == bytes[n]);
        assert forall|i: int| 0 <= i < n - 1 implies rest[i] != 0 by {
            assert(rest[i] == bytes[i + 1]);
        }
        lemma_text_length(rest, n - 1);
    }
}

/// The text of a fixed-size field, if it holds one.
pub fn field_to_valid_text(bytes: &Vec<u8>) -> (r: Option<String>)
    ensures
        match r {
            Some(text) => valid_field_text(bytes@) == Some(text@),
            None => valid_field_text(bytes@) is None,
        },
{
    let mut head: Vec<u8> = Vec::new();
    let mut n: usize = 0;
    while n < bytes.len() && bytes[n] != 0
        invariant
            n <= bytes@.len(),
            head@ == bytes@.take(n as int),
            forall|i: int| 0 <= i < n ==> bytes@[i] != 0,
        decreases bytes@.len() - n,
    {
        head.push(bytes[n]);
        n = n + 1;
        assert(bytes@.take(n as int) == bytes@.take(n - 1).push(bytes@[n - 1]));
    }
    proof {
        lemma_text_length(bytes@, n as int);
    }
    utf8_text(head.as_slice())
}

/// The text of a fixed-size field. Bytes that are no UTF-8 text count as the empty text.
pub fn field_to_text(bytes: &Vec<u8>) -> (r: String)
    ensures
        r@ == field_text(bytes@),
{
    match field_to_valid_text(bytes) {
        Some(text) => text,
        None => String::new(),
    }
}

/// Whether a stream with this name of this camera is taken up.
pub open spec fn is_registered_stream(
    camera: SystemAndComponent,
    name: Seq<u8>,
    recording_capable: Set<SystemAndComponent>,
    streams: Map<Seq<char>, VideoStream>,
) -> bool {
    &&& recording_capable.contains(camera)
    &&& field_text(name).len() > 0
    &&& !streams.contains_key(crate::mav::camera::stream::video_topic(field_text(name)))
}

/// The streams after a camera has told of one with this name.
pub open spec fn stream_noted(
    camera: SystemAndComponent,
    name: Seq<u8>,
    recording_capable: Set<SystemAndComponent>,
    before: TextMap<VideoStream>,
    after: TextMap<VideoStream>,
) -> bool {
    if is_registered_stream(camera, name, recording_capable, before@) {
        let topic = crate::mav::camera::stream::video_topic(field_text(name));
        &&& after@ == before@.insert(topic, after@[topic])
        &&& after@[topic].topic@ == topic
        &&& after@[topic] == crate::mav::camera::stream::new_stream(after@[topic].topic, camera)
    } else {
        after == before
    }
}

/// Takes up a stream of a camera that captures video, unless its name is empty or its topic is
/// known already.
pub fn on_video_stream_information(
    camera: SystemAndComponent,
    name: &Vec<u8>,
    recording_capable: &CameraSet,
    video_streams: &mut TextMap<VideoStream>,
)
    requires
        old(video_streams).wf(),
    ensures
        final(video_streams).wf(),
        stream_noted(
            camera,
            name@,
            recording_capable@,
            *old(video_streams),
            *final(video_streams),
        ),
{
    if !recording_capable.contains(camera) {
        return ;
    }
    let text = field_to_text(name);
    if text.as_str().is_empty() {
        return ;
    }
    let topic = video_topic_from_name(text.as_str());
    if video_streams.contains_key(topic.as_str()) {
        return ;
    }
    let stream = VideoStream::new(topic.clone(), camera);
    video_streams.insert(topic, stream);
}

/// Whether a target addresses a component. Zero stands for all systems and for all components.
pub open spec fn addresses(
    target_system: u8,
    target_component: u8,
    camera: SystemAndComponent,
) -> bool {
    &&& target_system == 0 || target_system == camera.system_id
    &&& target_component == 0 || target_component == camera.component_id
}

/// Whether a target addresses a component. Zero stands for all systems and for all components.
pub fn is_addressed_to(
    target_system: u8,
    target_component: u8,
    our_system_id: u8,
    our_component_id: u8,
) -> (r: bool)
    ensures
        r == addresses(
            target_system,
            target_component,
            SystemAndComponent { system_id: our_system_id, component_id: our_component_id },
        ),
{
    let system_matches = target_system == 0 || target_system == our_system_id;
    let component_matches = target_component == 0 || target_component == our_component_id;
    system_matches && component_matches
}

/// The recording command that a command is, if it is one.
pub open spec fn recording_command(code: u32) -> Option<MavCmd> {
    if code == MavCmd::VideoStartCapture.code() {
        Some(MavCmd::VideoStartCapture)
    } else if code == MavCmd::VideoStopCapture.code() {
        Some(MavCmd::VideoStopCapture)
    } else if code == MavCmd::RequestCameraCaptureStatus.code() {
        Some(MavCmd::RequestCameraCaptureStatus)
    } else {
        None
    }
}

/// The stream after a recording command, which is for it if the target addresses its camera.
pub open spec fn stream_after(stream: VideoStream, data: CommandLong, now: u64) -> VideoStream {
    match recording_command(data.command) {
        Some(command) if addresses(data.target_system, data.target_component, stream.camera) =>
            crate::mav::camera::stream::after_command(stream, command, now),
        _ => stream,
    }
}

/// The frames with which a stream answers a command.
pub open spec fn stream_frames(stream: VideoStream, data: CommandLong, clock: Clock) -> Seq<
    Seq<u8>,
> {
    match recording_command(data.command) {
        Some(command) if addresses(data.target_system, data.target_component, stream.camera) =>
            crate::mav::camera::stream::reply_frames(stream, command, clock),
        _ => seq![],
    }
}

/// What a command does to a stream's running report.
pub open spec fn stream_task(
    stream: VideoStream,
    data: CommandLong,
    interval_ms: u64,
    now: u64,
) -> TaskChange {
    match recording_command(data.command) {
        Some(command) if addresses(data.target_system, data.target_component, stream.camera) =>
            crate::mav::camera::stream::task_change(stream, command, interval_ms, now),
        _ => TaskChange::Keep,
    }
}

/// The frames with which the first `n` streams answer a command, in order.
pub open spec fn all_frames(
    streams: Seq<VideoStream>,
    data: CommandLong,
    clock: Clock,
    n: nat,
) -> Seq<Seq<u8>>
    decreases n,
{
    if n == 0 {
        seq![]
    } else {
        all_frames(streams, data, clock, (n - 1) as nat) + stream_frames(
            streams[n - 1],
            data,
            clock,
        )
    }
}

/// The answer to a command: frames to publish, and for each stream what becomes of its report.
#[derive(Debug)]
pub struct CommandReplies {
    pub frames: Vec<Vec<u8>>,
    pub tasks: Vec<TaskChange>,
}

/// The streams after a command, and the answer to it.
pub open spec fn commanded(
    data: CommandLong,
    interval_ms: u64,
    clock: Clock,
    before: TextMap<VideoStream>,
    after: TextMap<VideoStream>,
    r: CommandReplies,
) -> bool {
    let n = before.values@.len();
    &&& after.keys@ == before.keys@
    &&& after.values@.len() == n
    &&& forall|i: int|
        0 <= i < n ==> #[trigger] after.values@[i] == stream_after(
            before.values@[i],
            data,
            clock.now,
        )
    &&& crate::mav::camera::stream::frames_view(r.frames@) == all_frames(
        before.values@,
        data,
        clock,
        n,
    )
    &&& r.tasks@.len() == n
    &&& forall|i: int|
        0 <= i < n ==> #[trigger] r.tasks@[i] == stream_task(
            before.values@[i],
            data,
            interval_ms,
            clock.now,
        )
}

/// Applies a recording command to every addressed stream. A target system or component of zero
/// addresses them all. Other commands do nothing.
pub fn on_command_long(
    data: &CommandLong,
    interval_ms: u64,
    video_streams: &mut TextMap<VideoStream>,
    clock: Clock,
) -> (r: CommandReplies)
    requires
        old(video_streams).wf(),
    ensures
        final(video_streams).wf(),
        commanded(*data, interval_ms, clock, *old(video_streams), *final(video_streams), r),
{
    let ghost before = *video_streams;
    let command = match MavCmd::from_code(data.command) {
        Some(MavCmd::RequestMessage) => None,
        command => command,
    };
    assert(command == recording_command(data.command)) by {
        if command is None {
            assert(MavCmd::VideoStartCapture.code() == 2500);
        }
    }
    let mut frames: Vec<Vec<u8>> = Vec::new();
    let mut tasks: Vec<TaskChange> = Vec::new();
    let mut i: usize = 0;
    assert(crate::mav::camera::stream::frames_view(frames@) =~= seq![]);
    while i < video_streams.values.len()
        invariant
            before.wf(),
            command == recording_command(data.command),
            i <= before.values@.len(),
            video_streams.keys@ == before.keys@,
            video_streams.values@.len() == before.values@.len(),
            tasks@.len() == i,
            forall|j: int|
                0 <= j < i ==> #[trigger] video_streams.values@[j] == stream_after(
                    before.values@[j],
                    *data,
                    clock.now,
                ),
            forall|j: int|
                i <= j < before.values@.len() ==> #[trigger] video_streams.values@[j]
                    == before.values@[j],
            forall|j: int|
                0 <= j < i ==> #[trigger] tasks@[j] == stream_task(
                    before.values@[j],
                    *data,
                    interval_ms,
                    clock.now,
                ),
            crate::mav::camera::stream::frames_view(frames@) == all_frames(
                before.values@,
                *data,
                clock,
                i as nat,
            ),
        decreases before.values@.len() - i,
    {
        let camera = video_streams.values[i].camera;
        let addressed = is_addressed_to(
            data.target_system,
            data.target_component,
            camera.system_id,
            camera.component_id,
        );
        let ghost sent = frames@;
        assert(video_streams.values@[i as int] == before.values@[i as int]);
        match command {
            Some(command) if addressed => {
                let stream = &mut video_streams.values[i];
                let outcome = stream.handle_command(command, interval_ms, clock);
                let mut answer = outcome.frames;
                let ghost added = answer@;
                frames.append(&mut answer);
                tasks.push(outcome.task);
                assert(crate::mav::camera::stream::frames_view(frames@)
                    =~= crate::mav::camera::stream::frames_view(sent)
                    + crate::mav::camera::stream::frames_view(added));
            },
            _ => {
                tasks.push(TaskChange::Keep);
                assert(all_frames(before.values@, *data, clock, (i + 1) as nat) =~= all_frames(
                    before.values@,
                    *data,
                    clock,
                    i as nat,
                ));
            },
        }
        i = i + 1;
    }
    CommandReplies { frames, tasks }
}

/// A command with target zero reaches every camera, and one for a camera's own address reaches
/// that camera.
pub proof fn lemma_broadcast(camera: SystemAndComponent)
    ensures
        addresses(0, 0, camera),
        addresses(camera.system_id, 0, camera),
        addresses(0, camera.component_id, camera),
        addresses(camera.system_id, camera.component_id, camera),
{
}

/// A command whose target is not zero reaches only the camera at that address.
pub proof fn lemma_unicast(target_system: u8, target_component: u8, camera: SystemAndComponent)
    requires
        target_system != 0,
        target_component != 0,
        addresses(target_system, target_component, camera),
    ensures
        camera == (SystemAndComponent {
            system_id: target_system,
            component_id: target_component,
        }),
{
}

/// Streams that a command does not address stay as they are and answer nothing, and so do all
/// streams when the command is no recording command.
pub proof fn lemma_other_streams_unchanged(
    stream: VideoStream,
    data: CommandLong,
    interval_ms: u64,
    clock: Clock,
)
    requires
        recording_command(data.command) is None || !addresses(
            data.target_system,
            data.target_component,
            stream.camera,
        ),
    ensures
        stream_after(stream, data, clock.now) == stream,
        stream_frames(stream, data, clock).len() == 0,
        stream_task(stream, data, interval_ms, clock.now) == TaskChange::Keep,
{
}

/// A camera that is heard of again is no news.
pub proof fn lemma_heard_again(cameras: Set<SystemAndComponent>, camera: SystemAndComponent)
    ensures
        cameras.insert(camera).contains(camera),
        cameras.insert(camera).insert(camera) == cameras.insert(camera),
{
    assert(cameras.insert(camera).insert(camera) =~= cameras.insert(camera));
}

/// A camera captures video exactly if the lowest bit of its capability flags is set; no other flag
/// matters.
pub proof fn lemma_captures_video(flags: u32)
    ensures
        captures_video(flags) <==> flags % 2 == 1,
{
    assert(flags & 1 == 1 <==> flags % 2 == 1) by (bit_vector);
}

/// What a camera says of itself decides whether it is one that captures video, whatever it said
/// before, and says nothing of other cameras.
pub proof fn lemma_capability(
    capable: Set<SystemAndComponent>,
    camera: SystemAndComponent,
    flags: u32,
    other: SystemAndComponent,
)
    ensures
        capable_after(capable, camera, flags).contains(camera) <==> flags % 2 == 1,
        other != camera ==> (capable_after(capable, camera, flags).contains(other)
            <==> capable.contains(other)),
{
    lemma_captures_video(flags);
}

/// A command for another system, or for another component, does not reach a camera.
pub proof fn lemma_elsewhere(target_system: u8, target_component: u8, camera: SystemAndComponent)
    ensures
        target_system != 0 && target_system != camera.system_id ==> !addresses(
            target_system,
            target_component,
            camera,
        ),
        target_component != 0 && target_component != camera.component_id ==> !addresses(
            target_system,
            target_component,
            camera,
        ),
{
}

/// The recording commands, by their numbers.
pub proof fn lemma_recording_commands(code: u32)
    ensures
        recording_command(code) == Some(MavCmd::VideoStartCapture) <==> code == 2500,
        recording_command(code) == Some(MavCmd::VideoStopCapture) <==> code == 2501,
        recording_command(code) == Some(MavCmd::RequestCameraCaptureStatus) <==> code == 527,
        recording_command(code) is Some ==> code == 2500 || code == 2501 || code == 527,
{
}

/// A recording command is carried out by every stream whose camera it addresses, as if it were for
/// that stream alone.
pub proof fn lemma_addressed_streams_obey(
    stream: VideoStream,
    data: CommandLong,
    interval_ms: u64,
    clock: Clock,
)
    requires
        data.target_system == 0 || data.target_system == stream.camera.system_id,
        data.target_component == 0 || data.target_component == stream.camera.component_id,
    ensures
        data.command == 2500 ==> stream_after(stream, data, clock.now).is_recording
            && stream_frames(stream, data, clock).len() == 1 && stream_frames(
            stream,
            data,
            clock,
        )[0][10] == 0xC4 && stream_task(stream, data, interval_ms, clock.now) is Start,
        data.command == 2501 ==> !stream_after(stream, data, clock.now).is_recording
            && stream_frames(stream, data, clock).len() == 1 && stream_frames(
            stream,
            data,
            clock,
        )[0][10] == 0xC5 && stream_task(stream, data, interval_ms, clock.now) is Stop,
        data.command == 527 ==> stream_after(stream, data, clock.now).is_recording
            == stream.is_recording && stream_frames(stream, data, clock).len() == 2
            && stream_frames(stream, data, clock)[0][10] == 0x0F && stream_task(
            stream,
            data,
            interval_ms,
            clock.now,
        ) is Keep,
{
    lemma_recording_commands(data.command);
    if recording_command(data.command) is Some {
        crate::mav::camera::stream::lemma_answers_acknowledge(
            stream,
            recording_command(data.command)->Some_0,
            clock,
        );
    }
}

/// The answer to a command holds the answer of every stream, whole and in order, and nothing else.
pub proof fn lemma_every_stream_answers(
    streams: Seq<VideoStream>,
    data: CommandLong,
    clock: Clock,
    n: nat,
    i: int,
)
    requires
        0 <= i < n <= streams.len(),
    ensures
        ({
            let all = all_frames(streams, data, clock, n);
            let before = all_frames(streams, data, clock, i as nat).len() as int;
            let own = stream_frames(streams[i], data, clock);
            &&& before + own.len() <= all.len()
            &&& all.subrange(before, before + own.len()) == own
            &&& i == n - 1 ==> all.len() == before + own.len()
            &&& i == 0 ==> before == 0
        }),
    decreases n,
{
    let all = all_frames(streams, data, clock, n);
    let before = all_frames(streams, data, clock, i as nat).len() as int;
    let own = stream_frames(streams[i], data, clock);
    if i < n - 1 {
        lemma_every_stream_answers(streams, data, clock, (n - 1) as nat, i);
        let shorter = all_frames(streams, data, clock, (n - 1) as nat);
        assert(all.subrange(before, before + own.len()) =~= shorter.subrange(
            before,
            before + own.len(),
        ));
    } else {
        assert(all.subrange(before, before + own.len()) =~= own);
    }
}

/// The text of a field ends at its first zero byte; a field without one is text to its end.
pub proof fn lemma_field_ends_at_zero(bytes: Seq<u8>, n: int)
    requires
        0 <= n <= bytes.len(),
        n < bytes.len() ==> bytes[n] == 0,
        forall|i: int| 0 <= i < n ==> bytes[i] != 0,
    ensures
        valid_field_text(bytes) is Some <==> vstd::utf8::valid_utf8(bytes.take(n)),
        valid_field_text(bytes) is Some ==> valid_field_text(bytes)->Some_0
            == vstd::utf8::decode_utf8(bytes.take(n)),
        field_text(bytes) == (if vstd::utf8::valid_utf8(bytes.take(n)) {
            vstd::utf8::decode_utf8(bytes.take(n))
        } else {
            Seq::<char>::empty()
        }),
{
    lemma_text_length(bytes, n);
}

/// A stream that a camera tells of is taken up, not recording and with nothing sent, exactly if the
/// camera captures video, the stream has a name and its topic is new. No other stream changes.
pub proof fn lemma_streams_are_taken_up(
    camera: SystemAndComponent,
    name: Seq<u8>,
    capable: Set<SystemAndComponent>,
    before: TextMap<VideoStream>,
    after: TextMap<VideoStream>,
    other: Seq<char>,
)
    requires
        stream_noted(camera, name, capable, before, after),
    ensures
        ({
            let topic = crate::mav::camera::stream::video_topic(field_text(name));
            let is_new = capable.contains(camera) && field_text(name).len() > 0
                && !before@.contains_key(topic);
            &&& is_new ==> {
                &&& after@.contains_key(topic)
                &&& after@[topic].topic@ == topic
                &&& after@[topic].camera == camera
                &&& !after@[topic].is_recording
                &&& after@[topic].sequence == 0
                &&& after@[topic].wf()
            }
            &&& !is_new || other != topic ==> {
                &&& after@.contains_key(other) <==> before@.contains_key(other)
                &&& before@.contains_key(other) ==> after@[other] == before@[other]
            }
        }),
{
}

/// A camera that is heard of is one of those heard of from then on, it is news exactly the first
/// time, and other cameras are not affected.
pub proof fn lemma_cameras_heard(
    cameras: Set<SystemAndComponent>,
    camera: SystemAndComponent,
    other: SystemAndComponent,
)
    ensures
        heard(cameras, camera).0.contains(camera),
        other != camera ==> (heard(cameras, camera).0.contains(other) <==> cameras.contains(other)),
        heard(cameras, camera).1 is Some <==> !cameras.contains(camera),
        heard(cameras, camera).1 is Some ==> heard(cameras, camera).1->Some_0 == camera,
{
}

/// After a command every stream that it addresses has obeyed, and its acknowledgement is among the
/// frames of the answer; every other stream is as it was. A command that is no recording command is
/// not answered at all.
pub proof fn lemma_commands_are_obeyed(
    data: CommandLong,
    interval_ms: u64,
    clock: Clock,
    before: TextMap<VideoStream>,
    after: TextMap<VideoStream>,
    r: CommandReplies,
    i: int,
)
    requires
        commanded(data, interval_ms, clock, before, after, r),
        0 <= i < before.values@.len(),
    ensures
        ({
            let stream = before.values@[i];
            let addressed = (data.target_system == 0 || data.target_system
                == stream.camera.system_id) && (data.target_component == 0 || data.target_component
                == stream.camera.component_id);
            let known = data.command == 2500 || data.command == 2501 || data.command == 527;
            &&& addressed && known ==> exists|p: int|
                0 <= p < r.frames@.len() && (#[trigger] r.frames@[p])@[10] + 256 * r.frames@[p]@[11]
                    == data.command && r.frames@[p]@[5] == stream.camera.system_id
                    && r.frames@[p]@[6] == stream.camera.component_id
            &&& addressed && data.command == 2500 ==> after.values@[i].is_recording
                && r.tasks@[i] is Start
            &&& addressed && data.command == 2501 ==> !after.values@[i].is_recording
                && r.tasks@[i] is Stop
            &&& addressed && data.command == 527 ==> after.values@[i].is_recording
                == stream.is_recording && r.tasks@[i] is Keep
            &&& !addressed || !known ==> after.values@[i] == stream && r.tasks@[i] is Keep
            &&& !known ==> r.frames@.len() == 0
            &&& after.values@.len() == before.values@.len()
            &&& r.tasks@.len() == before.values@.len()
        }),
{
    let stream = before.values@[i];
    let n = before.values@.len();
    lemma_recording_commands(data.command);
    assert(after.values@[i] == stream_after(stream, data, clock.now));
    assert(r.tasks@[i] == stream_task(stream, data, interval_ms, clock.now));
    let frames = crate::mav::camera::stream::frames_view(r.frames@);
    if recording_command(data.command) is Some {
        let command = recording_command(data.command)->Some_0;
        if addresses(data.target_system, data.target_component, stream.camera) {
            lemma_addressed_streams_obey(stream, data, interval_ms, clock);
            lemma_every_stream_answers(before.values@, data, clock, n, i);
            crate::mav::camera::stream::lemma_answers_acknowledge(stream, command, clock);
            let p = all_frames(before.values@, data, clock, i as nat).len() as int;
            let own = stream_frames(stream, data, clock);
            assert(frames.subrange(p, p + own.len())[0] == frames[p]);
            assert(frames[p] == r.frames@[p]@);
        }
    } else {
        lemma_no_answer(before.values@, data, clock, n);
        assert(frames.len() == r.frames@.len());
    }
}

proof fn lemma_no_answer(streams: Seq<VideoStream>, data: CommandLong, clock: Clock, n: nat)
    requires
        recording_command(data.command) is None,
    ensures
        all_frames(streams, data, clock, n).len() == 0,
    decreases n,
{
    if n > 0 {
        lemma_no_answer(streams, data, clock, (n - 1) as nat);
    }
}

/// A target is this component exactly if each of its two numbers is zero or the component's own.
pub proof fn lemma_targets(
    target_system: u8,
    target_component: u8,
    system_id: u8,
    component_id: u8,
    r: bool,
)
    requires
        call_ensures(
            is_addressed_to,
            (target_system, target_component, system_id, component_id),
            r,
        ),
    ensures
        r <==> set![0u8, system_id].contains(target_system) && set![0u8, component_id].contains(
            target_component,
        ),
{
}

/// A camera that tells its flags captures video from then on exactly if the flags are odd.
pub proof fn lemma_flags_decide(
    camera: SystemAndComponent,
    flags: u32,
    capable: &mut CameraSet,
    other: SystemAndComponent,
)
    requires
        call_ensures(on_camera_information, (camera, flags, capable), ()),
    ensures
        final(capable)@.contains(camera) <==> flags % 2 == 1,
        other != camera ==> (final(capable)@.contains(other) <==> old(capable)@.contains(other)),
{
    lemma_capability(old(capable)@, camera, flags, other);
}

/// A component that is heard of is news exactly the first time, and stays known.
pub proof fn lemma_heartbeats_are_noted(
    discoverer: &mut CameraDiscoverer,
    camera: SystemAndComponent,
    r: Option<SystemAndComponent>,
    other: SystemAndComponent,
)
    requires
        call_ensures(on_heartbeat, (discoverer, camera), r),
    ensures
        final(discoverer).state.cameras@.contains(camera),
        other != camera ==> (final(discoverer).state.cameras@.contains(other) <==> old(
            discoverer,
        ).state.cameras@.contains(other)),
        r is Some <==> !old(discoverer).state.cameras@.contains(camera),
        r is Some ==> r->Some_0 == camera,
{
    lemma_cameras_heard(old(discoverer).state.cameras@, camera, other);
}

} // verus!
