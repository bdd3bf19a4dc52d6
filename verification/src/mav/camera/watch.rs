//! Streams that are only watched: commands for them are noticed but change nothing.
use vstd::prelude::*;

use crate::mav::camera::set::CameraSet;
use crate::mav::camera::stream::video_topic_from_name;
use crate::mav::camera::field_to_valid_text;
use crate::mav::wire::{CommandLong, MavCmd};
use crate::service::SystemAndComponent;
use crate::text_map::TextMap;

verus! {

/// A stream that is watched.
#[derive(Debug)]
pub struct WatchedStream {
    pub topic: String,
    pub camera: SystemAndComponent,
    pub is_recording: bool,
}

impl WatchedStream {
    /// A stream that does not record.
    pub fn new(topic: String, camera: SystemAndComponent) -> (r: Self)
        ensures
            r == (WatchedStream { topic, camera, is_recording: false }),
    {
        WatchedStream { topic, camera, is_recording: false }
    }
}

/// The place of a stream of `camera`, if there is one; no stream before it is of that camera.
pub fn video_stream_for_camera(
    video_streams: &TextMap<WatchedStream>,
    camera: SystemAndComponent,
) -> (r: Option<usize>)
    ensures
        is_first_of(video_streams.values@, camera, r),
{
    let mut i: usize = 0;
    while i < video_streams.values.len()
        invariant
            i <= video_streams.values@.len(),
            forall|j: int| 0 <= j < i ==> video_streams.values@[j].camera != camera,
        decreases video_streams.values@.len() - i,
    {
        if video_streams.values[i].camera == camera {
            return Some(i);
        }
        i = i + 1;
    }
    None
}

/// The stream at this place is the first one of `camera`, or there is none.
pub open spec fn is_first_of(
    streams: Seq<WatchedStream>,
    camera: SystemAndComponent,
    place: Option<usize>,
) -> bool {
    match place {
        Some(i) => {
            &&& i < streams.len()
            &&& streams[i as int].camera == camera
            &&& forall|j: int| 0 <= j < i ==> (#[trigger] streams[j]).camera != camera
        },
        None => forall|j: int| 0 <= j < streams.len() ==> (#[trigger] streams[j]).camera != camera,
    }
}

/// The command concerns the stream at this place, as this recording command, or no stream.
pub open spec fn is_concerned(
    data: CommandLong,
    streams: TextMap<WatchedStream>,
    r: Option<(usize, MavCmd)>,
) -> bool {
    let target = SystemAndComponent {
        system_id: data.target_system,
        component_id: data.target_component,
    };
    match r {
        Some((i, command)) => {
            &&& crate::mav::camera::recording_command(data.command) == Some(command)
            &&& is_first_of(streams.values@, target, Some(i))
        },
        None => crate::mav::camera::recording_command(data.command) is None || is_first_of(
            streams.values@,
            target,
            None,
        ),
    }
}

/// The stream that a command is for, with the recording command that it is: the target must be
/// the stream's camera itself, and other commands are for no stream.
pub fn on_command_long(data: &CommandLong, video_streams: &TextMap<WatchedStream>) -> (r: Option<
    (usize, MavCmd),
>)
    ensures
        is_concerned(*data, *video_streams, r),
{
    let target = SystemAndComponent {
        system_id: data.target_system,
        component_id: data.target_component,
    };
    let stream: usize = match video_stream_for_camera(video_streams, target) {
        Some(stream) => stream,
        None => {
            return None;
        },
    };
    match MavCmd::from_code(data.command) {
        Some(MavCmd::VideoStartCapture) => Some((stream, MavCmd::VideoStartCapture)),
        Some(MavCmd::VideoStopCapture) => Some((stream, MavCmd::VideoStopCapture)),
        Some(MavCmd::RequestCameraCaptureStatus) => Some(
            (stream, MavCmd::RequestCameraCaptureStatus),
        ),
        _ => {
            assert(MavCmd::VideoStartCapture.code() == 2500);
            None
        },
    }
}

/// Takes up a stream of a camera that captures video, unless its name is no text or its topic is
/// known already. An empty name will do.
pub fn on_video_stream_information(
    camera: SystemAndComponent,
    name: &Vec<u8>,
    recording_capable: &CameraSet,
    video_streams: &mut TextMap<WatchedStream>,
)
    requires
        old(video_streams).wf(),
    ensures
        final(video_streams).wf(),
        match crate::mav::camera::valid_field_text(name@) {
            Some(text) if recording_capable@.contains(camera) && !old(
                video_streams,
            )@.contains_key(crate::mav::camera::stream::video_topic(text)) => {
                let topic = crate::mav::camera::stream::video_topic(text);
                &&& final(video_streams)@ == old(video_streams)@.insert(
                    topic,
                    final(video_streams)@[topic],
                )
                &&& final(video_streams)@[topic].topic@ == topic
                &&& final(video_streams)@[topic].camera == camera
                &&& !final(video_streams)@[topic].is_recording
            },
            _ => *final(video_streams) == *old(video_streams),
        },
{
    if !recording_capable.contains(camera) {
        return ;
    }
    match field_to_valid_text(name) {
        None => {},
        Some(text) => {
            let topic = video_topic_from_name(text.as_str());
            if video_streams.contains_key(topic.as_str()) {
                return ;
            }
            let stream = WatchedStream::new(topic.clone(), camera);
            video_streams.insert(topic, stream);
        },
    }
}

/// A command concerns a watched stream only if it is one of the three recording commands, by their
/// numbers, and its target is the stream's camera itself; then it always does.
pub proof fn lemma_watched_commands(
    data: &CommandLong,
    streams: &TextMap<WatchedStream>,
    r: Option<(usize, MavCmd)>,
    i: int,
)
    requires
        call_ensures(on_command_long, (data, streams), r),
        0 <= i < streams.values@.len(),
    ensures
        r is Some ==> {
            let stream = streams.values@[r->Some_0.0 as int];
            &&& r->Some_0.0 < streams.values@.len()
            &&& stream.camera.system_id == data.target_system
            &&& stream.camera.component_id == data.target_component
        },
        r is Some && r->Some_0.1 == MavCmd::VideoStartCapture <==> r is Some && data.command
            == 2500,
        r is Some && r->Some_0.1 == MavCmd::VideoStopCapture <==> r is Some && data.command
            == 2501,
        r is Some && r->Some_0.1 == MavCmd::RequestCameraCaptureStatus <==> r is Some
            && data.command == 527,
        streams.values@[i].camera.system_id == data.target_system
            && streams.values@[i].camera.component_id == data.target_component ==> (r is Some
            <==> data.command == 2500 || data.command == 2501 || data.command == 527),
        r is Some && i < r->Some_0.0 ==> streams.values@[i].camera.system_id != data.target_system
            || streams.values@[i].camera.component_id != data.target_component,
{
    crate::mav::camera::lemma_recording_commands(data.command);
    let target = SystemAndComponent {
        system_id: data.target_system,
        component_id: data.target_component,
    };
    let stream = streams.values@[i];
    if stream.camera.system_id == data.target_system && stream.camera.component_id
        == data.target_component {
        assert(stream.camera == target);
        assert(!is_first_of(streams.values@, target, None));
    }
}

/// A stream of a camera that captures video is taken up, not recording, unless its name is no text
/// or its topic is known; other streams are not affected.
pub proof fn lemma_watched_streams(
    camera: SystemAndComponent,
    name: &Vec<u8>,
    capable: &CameraSet,
    streams: &mut TextMap<WatchedStream>,
    other: Seq<char>,
)
    requires
        call_ensures(on_video_stream_information, (camera, name, capable, streams), ()),
    ensures
        ({
            let text = crate::mav::camera::valid_field_text(name@);
            let topic = crate::mav::camera::stream::video_topic(text->Some_0);
            let is_new = capable@.contains(camera) && text is Some && !old(
                streams,
            )@.contains_key(topic);
            &&& is_new ==> {
                &&& final(streams)@.contains_key(topic)
                &&& final(streams)@[topic].topic@ == topic
                &&& final(streams)@[topic].camera == camera
                &&& !final(streams)@[topic].is_recording
            }
            &&& !is_new || other != topic ==> {
                &&& final(streams)@.contains_key(other) <==> old(streams)@.contains_key(other)
                &&& old(streams)@.contains_key(other) ==> final(streams)@[other] == old(
                    streams,
                )@[other]
            }
        }),
{
}


} // verus!
