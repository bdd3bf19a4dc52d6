//! Video streams and how they answer recording commands.
use vstd::prelude::*;

use crate::mav::encode;
use crate::mav::wire::{
    camera_capture_status_message, command_ack_message, MavCmd, MavHeader, MavResult,
};
use crate::service::SystemAndComponent;
use crate::text::{join_texts, keep_ascii_alphanumeric};

verus! {

/// Readings of one monotonic clock, in nanoseconds: when the recorder booted, and now.
#[derive(Debug, Clone, Copy)]
pub struct Clock {
    pub boot: u64,
    pub now: u64,
}

/// The whole milliseconds from `start` to `now`, cut to 32 bits; none if `start` lies ahead.
pub open spec fn elapsed(start: u64, now: u64) -> u32 {
    if now < start {
        0
    } else {
        (((now - start) / 1_000_000) % 0x1_0000_0000) as u32
    }
}

/// The whole milliseconds from `start` to `now`, cut to 32 bits; none if `start` lies ahead.
pub fn elapsed_ms(start: u64, now: u64) -> (r: u32)
    ensures
        r == elapsed(start, now),
{
    if now < start {
        0
    } else {
        (((now - start) / 1_000_000) % 0x1_0000_0000) as u32
    }
}

/// The milliseconds since the recorder booted.
pub fn time_boot_ms(clock: Clock) -> (r: u32)
    ensures
        r == elapsed(clock.boot, clock.now),
{
    elapsed_ms(clock.boot, clock.now)
}

/// A camera's video stream. While it records, `recording_start` is when that began.
/// `has_status_task` says whether capture statuses are being sent for it.
#[derive(Debug)]
pub struct VideoStream {
    pub topic: String,
    pub camera: SystemAndComponent,
    pub is_recording: bool,
    pub recording_start: Option<u64>,
    pub sequence: u8,
    pub has_status_task: bool,
}

/// A running report of a stream's recording: one status every `interval_ms` milliseconds.
#[derive(Debug, Clone, Copy, PartialEq, Eq, Structural)]
pub struct StatusTask {
    pub camera: SystemAndComponent,
    pub sequence: u8,
    pub recording_start: u64,
    pub interval_ms: u64,
}

/// What becomes of a stream's running report.
#[derive(Debug, Clone, Copy, PartialEq, Eq, Structural)]
pub enum TaskChange {
    Keep,
    /// The report, if one runs, is stopped and this one started.
    Start(StatusTask),
    /// The report, if one runs, is stopped.
    Stop,
}

/// The answer to a recording command: frames to publish, and what becomes of the report.
#[derive(Debug)]
pub struct CommandOutcome {
    pub frames: Vec<Vec<u8>>,
    pub task: TaskChange,
}

/// Frames as byte sequences.
pub open spec fn frames_view(frames: Seq<Vec<u8>>) -> Seq<Seq<u8>> {
    frames.map_values(|frame: Vec<u8>| frame@)
}

/// The header of a frame that a camera sends.
pub open spec fn header_of(camera: SystemAndComponent, sequence: u8) -> MavHeader {
    MavHeader { system_id: camera.system_id, component_id: camera.component_id, sequence }
}

/// The frame in which a camera accepts a command.
pub open spec fn ack_frame(
    camera: SystemAndComponent,
    sequence: u8,
    command: MavCmd,
    result: MavResult,
) -> Seq<u8> {
    crate::mav::wire::v2_frame(
        header_of(camera, sequence),
        crate::mav::wire::COMMAND_ACK_ID,
        crate::mav::wire::ack_payload(command, result),
    )
}

/// The frame in which a camera reports its recording.
pub open spec fn status_frame(
    camera: SystemAndComponent,
    sequence: u8,
    video_status: u8,
    recording_time_ms: u32,
    boot_ms: u32,
) -> Seq<u8> {
    crate::mav::wire::v2_frame(
        header_of(camera, sequence),
        crate::mav::wire::CAMERA_CAPTURE_STATUS_ID,
        crate::mav::wire::status_payload(boot_ms, recording_time_ms, 0, video_status),
    )
}

/// What a stream reports of its recording: whether it records, and for how many milliseconds.
pub open spec fn capture_status(stream: VideoStream, now: u64) -> (u8, u32) {
    if stream.is_recording {
        match stream.recording_start {
            Some(start) => (1, elapsed(start, now)),
            None => (1, 0),
        }
    } else {
        (0, 0)
    }
}

/// The stream after a recording command.
pub open spec fn after_command(stream: VideoStream, command: MavCmd, now: u64) -> VideoStream {
    let next = crate::mav::next_in_sequence(stream.sequence);
    match command {
        MavCmd::VideoStartCapture => VideoStream {
            is_recording: true,
            recording_start: Some(now),
            sequence: next,
            has_status_task: true,
            ..stream
        },
        MavCmd::VideoStopCapture => VideoStream {
            is_recording: false,
            recording_start: None,
            sequence: next,
            has_status_task: false,
            ..stream
        },
        MavCmd::RequestCameraCaptureStatus => VideoStream {
            sequence: crate::mav::next_in_sequence(next),
            ..stream
        },
        MavCmd::RequestMessage => stream,
    }
}

/// The frames with which a stream answers a recording command.
pub open spec fn reply_frames(stream: VideoStream, command: MavCmd, clock: Clock) -> Seq<Seq<u8>> {
    let ack = ack_frame(stream.camera, stream.sequence, command, MavResult::Accepted);
    match command {
        MavCmd::VideoStartCapture | MavCmd::VideoStopCapture => seq![ack],
        MavCmd::RequestCameraCaptureStatus => seq![
            ack,
            status_frame(
                stream.camera,
                crate::mav::next_in_sequence(stream.sequence),
                capture_status(stream, clock.now).0,
                capture_status(stream, clock.now).1,
                elapsed(clock.boot, clock.now),
            ),
        ],
        MavCmd::RequestMessage => seq![],
    }
}

/// What a recording command does to a stream's running report. A report comes at most ten times
/// a second.
pub open spec fn task_change(
    stream: VideoStream,
    command: MavCmd,
    interval_ms: u64,
    now: u64,
) -> TaskChange {
    match command {
        MavCmd::VideoStartCapture => TaskChange::Start(
            StatusTask {
                camera: stream.camera,
                sequence: crate::mav::next_in_sequence(stream.sequence),
                recording_start: now,
                interval_ms: if interval_ms < 100 {
                    100
                } else {
                    interval_ms
                },
            },
        ),
        MavCmd::VideoStopCapture => TaskChange::Stop,
        MavCmd::RequestCameraCaptureStatus | MavCmd::RequestMessage => TaskChange::Keep,
    }
}

impl VideoStream {
    /// A stream records exactly while a start is known and its report runs.
    pub open spec fn wf(&self) -> bool {
        &&& self.is_recording == (self.recording_start is Some)
        &&& self.is_recording == self.has_status_task
    }

    /// A stream that does not record.
    pub fn new(topic: String, camera: SystemAndComponent) -> (r: Self)
        ensures
            r == new_stream(topic, camera),
            r.wf(),
    {
        VideoStream {
            topic,
            camera,
            is_recording: false,
            recording_start: None,
            sequence: 0,
            has_status_task: false,
        }
    }

    /// Applies a recording command. `interval_ms` is how often the sender wants to hear of a
    /// recording that it starts.
    pub fn handle_command(&mut self, command: MavCmd, interval_ms: u64, clock: Clock) -> (r:
        CommandOutcome)
        ensures
            *final(self) == after_command(*old(self), command, clock.now),
            frames_view(r.frames@) == reply_frames(*old(self), command, clock),
            r.task == task_change(*old(self), command, interval_ms, clock.now),
    {
        let ghost before = *self;
        let mut frames: Vec<Vec<u8>> = Vec::new();
        match command {
            MavCmd::VideoStartCapture => {
                self.is_recording = true;
                self.recording_start = Some(clock.now);
                let sequence = self.next_sequence();
                frames.push(build_command_ack(self.camera, sequence, command, MavResult::Accepted));
                let task = self.spawn_status_task(interval_ms);
                assert(frames_view(frames@) =~= reply_frames(before, command, clock));
                CommandOutcome { frames, task }
            },
            MavCmd::VideoStopCapture => {
                self.is_recording = false;
                self.recording_start = None;
                let task = self.abort_status_task();
                let sequence = self.next_sequence();
                frames.push(build_command_ack(self.camera, sequence, command, MavResult::Accepted));
                assert(frames_view(frames@) =~= reply_frames(before, command, clock));
                CommandOutcome { frames, task }
            },
            MavCmd::RequestCameraCaptureStatus => {
                let (video_status, recording_time_ms) = self.capture_status_fields(clock.now);
                let sequence = self.next_sequence();
                frames.push(build_command_ack(self.camera, sequence, command, MavResult::Accepted));
                let sequence = self.next_sequence();
                frames.push(
                    build_camera_capture_status(
                        self.camera,
                        sequence,
                        video_status,
                        recording_time_ms,
                        clock,
                    ),
                );
                assert(frames_view(frames@) =~= reply_frames(before, command, clock));
                CommandOutcome { frames, task: TaskChange::Keep }
            },
            MavCmd::RequestMessage => {
                assert(frames_view(frames@) =~= reply_frames(before, command, clock));
                CommandOutcome { frames, task: TaskChange::Keep }
            },
        }
    }

    /// The sequence number of the next frame.
    pub fn next_sequence(&mut self) -> (r: u8)
        ensures
            r == old(self).sequence,
            *final(self) == after_number(*old(self)),
    {
        let sequence: u8 = self.sequence;
        self.sequence = self.sequence.wrapping_add(1);
        sequence
    }

    /// What the stream reports of its recording.
    pub fn capture_status_fields(&self, now: u64) -> (r: (u8, u32))
        ensures
            r == capture_status(*self, now),
    {
        if self.is_recording {
            match self.recording_start {
                Some(start) => (1, elapsed_ms(start, now)),
                None => (1, 0),
            }
        } else {
            (0, 0)
        }
    }

    /// Puts a new report in the place of the one that runs; without a recording there is none.
    fn spawn_status_task(&mut self, interval_ms: u64) -> (r: TaskChange)
        ensures
            match old(self).recording_start {
                Some(start) => {
                    &&& r == TaskChange::Start(
                        StatusTask {
                            camera: old(self).camera,
                            sequence: old(self).sequence,
                            recording_start: start,
                            interval_ms: if interval_ms < 100 {
                                100
                            } else {
                                interval_ms
                            },
                        },
                    )
                    &&& *final(self) == (VideoStream { has_status_task: true, ..*old(self) })
                },
                None => r == TaskChange::Stop && *final(self) == (VideoStream {
                    has_status_task: false,
                    ..*old(self)
                }),
            },
    {
        let stopped = self.abort_status_task();
        match self.recording_start {
            Some(recording_start) => {
                self.has_status_task = true;
                TaskChange::Start(
                    StatusTask {
                        camera: self.camera,
                        sequence: self.sequence,
                        recording_start,
                        interval_ms: if interval_ms < 100 {
                            100
                        } else {
                            interval_ms
                        },
                    },
                )
            },
            None => stopped,
        }
    }

    /// Ends the report that runs.
    fn abort_status_task(&mut self) -> (r: TaskChange)
        ensures
            r == TaskChange::Stop,
            *final(self) == (VideoStream { has_status_task: false, ..*old(self) }),
    {
        self.has_status_task = false;
        TaskChange::Stop
    }
}

/// The stream after it has given out a sequence number.
pub open spec fn after_number(stream: VideoStream) -> VideoStream {
    VideoStream { sequence: crate::mav::next_in_sequence(stream.sequence), ..stream }
}

/// The stream after it has given out `n` sequence numbers.
pub open spec fn after_numbers(stream: VideoStream, n: nat) -> VideoStream
    decreases n,
{
    if n == 0 {
        stream
    } else {
        after_number(after_numbers(stream, (n - 1) as nat))
    }
}

/// A stream that does not record and has sent nothing.
pub open spec fn new_stream(topic: String, camera: SystemAndComponent) -> VideoStream {
    VideoStream {
        topic,
        camera,
        is_recording: false,
        recording_start: None,
        sequence: 0,
        has_status_task: false,
    }
}

/// The next status of a report.
pub open spec fn tick_frame(task: StatusTask, clock: Clock) -> Seq<u8> {
    status_frame(
        task.camera,
        task.sequence,
        1,
        elapsed(task.recording_start, clock.now),
        elapsed(clock.boot, clock.now),
    )
}

/// The report after its next status.
pub open spec fn after_tick(task: StatusTask) -> StatusTask {
    StatusTask { sequence: crate::mav::next_in_sequence(task.sequence), ..task }
}

impl StatusTask {
    /// The next status of the report.
    pub fn tick(&mut self, clock: Clock) -> (r: Vec<u8>)
        ensures
            r@ == tick_frame(*old(self), clock),
            *final(self) == after_tick(*old(self)),
    {
        let recording_time_ms = elapsed_ms(self.recording_start, clock.now);
        let bytes = build_camera_capture_status(
            self.camera,
            self.sequence,
            1,
            recording_time_ms,
            clock,
        );
        self.sequence = self.sequence.wrapping_add(1);
        bytes
    }
}

/// The topic of a stream: its name's ASCII letters and digits between `video/` and `/stream`.
pub open spec fn video_topic(name: Seq<char>) -> Seq<char> {
    "video/"@ + name.filter(|c: char| crate::text::is_ascii_alphanumeric(c)) + "/stream"@
}

/// The ASCII letters and digits of a stream's name.
pub fn sanitize_stream_name(name: &str) -> (r: String)
    ensures
        r@ == name@.filter(|c: char| crate::text::is_ascii_alphanumeric(c)),
{
    keep_ascii_alphanumeric(name)
}

/// The topic of the stream with the given name.
pub fn video_topic_from_name(name: &str) -> (r: String)
    ensures
        r@ == video_topic(name@),
{
    let sanitized = sanitize_stream_name(name);
    let prefixed = join_texts("video/", sanitized.as_str());
    join_texts(prefixed.as_str(), "/stream")
}

/// The frame in which a camera answers a command.
pub fn build_command_ack(
    camera: SystemAndComponent,
    sequence: u8,
    command: MavCmd,
    result: MavResult,
) -> (r: Vec<u8>)
    ensures
        r@ == ack_frame(camera, sequence, command, result),
{
    encode(camera_header(camera, sequence), &command_ack_message(command, result))
}

/// The frame in which a camera reports its recording.
pub fn build_camera_capture_status(
    camera: SystemAndComponent,
    sequence: u8,
    video_status: u8,
    recording_time_ms: u32,
    clock: Clock,
) -> (r: Vec<u8>)
    ensures
        r@ == status_frame(
            camera,
            sequence,
            video_status,
            recording_time_ms,
            elapsed(clock.boot, clock.now),
        ),
{
    encode(
        camera_header(camera, sequence),
        &camera_capture_status_message(time_boot_ms(clock), recording_time_ms, 0, video_status),
    )
}

/// The header of a frame that a camera sends.
pub fn camera_header(camera: SystemAndComponent, sequence: u8) -> (r: MavHeader)
    ensures
        r == header_of(camera, sequence),
{
    MavHeader { system_id: camera.system_id, component_id: camera.component_id, sequence }
}

/// Every recording command keeps a stream's flags in step, and its topic and camera.
pub proof fn lemma_command_keeps_stream(stream: VideoStream, command: MavCmd, now: u64)
    requires
        stream.wf(),
    ensures
        after_command(stream, command, now).wf(),
        after_command(stream, command, now).topic == stream.topic,
        after_command(stream, command, now).camera == stream.camera,
{
}

/// A stop undoes a start: the stream no longer records, and what it reports is what a stream
/// reports that never recorded.
pub proof fn lemma_stop_undoes_start(stream: VideoStream, started: u64, stopped: u64, asked: u64)
    ensures
        ({
            let on = after_command(stream, MavCmd::VideoStartCapture, started);
            let off = after_command(on, MavCmd::VideoStopCapture, stopped);
            &&& on.is_recording
            &&& !off.is_recording
            &&& off.recording_start is None
            &&& !off.has_status_task
            &&& capture_status(on, asked) == (1u8, elapsed(started, asked))
            &&& capture_status(off, asked) == (0u8, 0u32)
        }),
{
}

/// A start while the stream records begins the recording anew and replaces the report.
pub proof fn lemma_restart(
    stream: VideoStream,
    first: u64,
    second: u64,
    interval_ms: u64,
    asked: u64,
)
    ensures
        ({
            let on = after_command(stream, MavCmd::VideoStartCapture, first);
            let again = after_command(on, MavCmd::VideoStartCapture, second);
            &&& capture_status(again, asked) == (1u8, elapsed(second, asked))
            &&& task_change(on, MavCmd::VideoStartCapture, interval_ms, second) matches TaskChange::Start(
                task,
            )
            &&& task.recording_start == second
            &&& task.interval_ms >= 100
        }),
{
}

/// A stream numbers its answers without a gap: after a command its next number is the old one
/// moved on once for each frame of the answer.
pub proof fn lemma_answers_are_numbered(stream: VideoStream, command: MavCmd, clock: Clock)
    ensures
        after_command(stream, command, clock.now).sequence == (stream.sequence + reply_frames(
            stream,
            command,
            clock,
        ).len()) % 256,
{
}

/// A sanitized name holds ASCII letters and digits only, and sanitizing it again changes nothing,
/// so it has the topic of the name that it was made from.
pub proof fn lemma_sanitized_name(name: Seq<char>)
    ensures
        ({
            let sanitized = name.filter(|c: char| crate::text::is_ascii_alphanumeric(c));
            &&& forall|i: int|
                0 <= i < sanitized.len() ==> crate::text::is_ascii_alphanumeric(
                    #[trigger] sanitized[i],
                )
            &&& sanitized.filter(|c: char| crate::text::is_ascii_alphanumeric(c)) == sanitized
            &&& video_topic(sanitized) == video_topic(name)
        }),
{
    let keep = |c: char| crate::text::is_ascii_alphanumeric(c);
    let sanitized = name.filter(keep);
    assert forall|i: int| 0 <= i < sanitized.len() implies keep(#[trigger] sanitized[i]) by {
        name.lemma_filter_pred(keep, i);
    }
    lemma_filter_keeps_all(sanitized, keep);
}

proof fn lemma_filter_keeps_all(s: Seq<char>, keep: spec_fn(char) -> bool)
    requires
        forall|i: int| 0 <= i < s.len() ==> keep(#[trigger] s[i]),
    ensures
        s.filter(keep) == s,
    decreases s.len(),
{
    reveal(Seq::filter);
    if s.len() > 0 {
        let rest = s.drop_last();
        assert forall|i: int| 0 <= i < rest.len() implies keep(#[trigger] rest[i]) by {
            assert(rest[i] == s[i]);
        }
        lemma_filter_keeps_all(rest, keep);
        assert(keep(s[s.len() - 1]));
        assert(s =~= rest.push(s.last()));
    }
}

/// A new stream's sequence numbers start at 0, go up by one, and begin again at 0 after 255: the
/// one after `n` others is `n` modulo 256. Nothing else of the stream changes.
pub proof fn lemma_numbers_go_round(topic: String, camera: SystemAndComponent, n: nat)
    ensures
        after_numbers(new_stream(topic, camera), n) == (VideoStream {
            sequence: (n % 256) as u8,
            ..new_stream(topic, camera)
        }),
    decreases n,
{
    if n > 0 {
        lemma_numbers_go_round(topic, camera, (n - 1) as nat);
    }
}

/// Times are counted in whole milliseconds, and start again at zero after 32 bits.
pub proof fn lemma_elapsed(start: u64, now: u64)
    ensures
        now < start ==> elapsed(start, now) == 0,
        start <= now ==> exists|rounds: int|
            0 <= rounds && (#[trigger] milliseconds(rounds, elapsed(start, now))) * 1_000_000 <= now
                - start < (milliseconds(rounds, elapsed(start, now)) + 1) * 1_000_000,
        start <= now && now - start < 4_294_967_296_000_000 ==> elapsed(start, now) * 1_000_000 <= now
            - start < (elapsed(start, now) + 1) * 1_000_000,
{
    if start <= now {
        let whole = (now - start) / 1_000_000;
        let rounds = whole / 0x1_0000_0000;
        assert(milliseconds(rounds, elapsed(start, now)) == whole);
    }
}

/// Milliseconds after the counter has gone round a number of times.
pub open spec fn milliseconds(rounds: int, counter: u32) -> int {
    rounds * 0x1_0000_0000 + counter
}

/// Every answer to a recording command begins with one frame that acknowledges that very command,
/// by its number, as accepted, from the stream's camera and with the stream's next sequence number.
/// Only a status request is answered with a second frame.
pub proof fn lemma_answers_acknowledge(stream: VideoStream, command: MavCmd, clock: Clock)
    requires
        command != MavCmd::RequestMessage,
    ensures
        ({
            let frames = reply_frames(stream, command, clock);
            let ack = frames[0];
            &&& frames.len() == (if command == MavCmd::RequestCameraCaptureStatus {
                2nat
            } else {
                1nat
            })
            &&& ack[0] == 0xFD
            &&& ack[1] == 2
            &&& ack[4] == stream.sequence
            &&& ack[5] == stream.camera.system_id
            &&& ack[6] == stream.camera.component_id
            &&& ack[7] + 256 * ack[8] + 65536 * ack[9] == 77
            &&& command == MavCmd::VideoStartCapture ==> ack[10] == 0xC4 && ack[11] == 0x09
            &&& command == MavCmd::VideoStopCapture ==> ack[10] == 0xC5 && ack[11] == 0x09
            &&& command == MavCmd::RequestCameraCaptureStatus ==> ack[10] == 0x0F && ack[11] == 0x02
        }),
{
    let payload = crate::mav::wire::ack_payload(command, MavResult::Accepted);
    let whole = crate::mav::wire::le16(command.code()).push(MavResult::Accepted.code());
    assert(whole.drop_last() =~= crate::mav::wire::le16(command.code()));
    reveal_with_fuel(crate::mav::wire::trimmed, 3);
    assert(payload == crate::mav::wire::le16(command.code()));
    let header = header_of(stream.camera, stream.sequence);
    crate::mav::wire::lemma_frame_header(header, crate::mav::wire::COMMAND_ACK_ID, payload);
    let ack = reply_frames(stream, command, clock)[0];
    assert(ack.subrange(10, 12)[0] == ack[10] && ack.subrange(10, 12)[1] == ack[11]);
}

/// A frame that reports a recording comes from the camera with the given sequence number and holds
/// the times and whether the camera records in their places; there is never an image.
pub proof fn lemma_status_frame(
    camera: SystemAndComponent,
    sequence: u8,
    video_status: u8,
    recording_time_ms: u32,
    boot_ms: u32,
)
    ensures
        ({
            let frame = status_frame(camera, sequence, video_status, recording_time_ms, boot_ms);
            let payload = frame.subrange(10, 10 + frame[1] as int);
            &&& frame[0] == 0xFD
            &&& frame[4] == sequence
            &&& frame[5] == camera.system_id
            &&& frame[6] == camera.component_id
            &&& frame[7] + 256 * frame[8] + 65536 * frame[9] == 262
            &&& crate::mav::wire::u32_at(payload, 0) == boot_ms
            &&& crate::mav::wire::u32_at(payload, 8) == recording_time_ms
            &&& crate::mav::wire::byte_at(payload, 16) == 0
            &&& crate::mav::wire::byte_at(payload, 17) == video_status
        }),
{
    let payload = crate::mav::wire::status_payload(boot_ms, recording_time_ms, 0, video_status);
    crate::mav::wire::lemma_status_payload(boot_ms, recording_time_ms, 0, video_status);
    crate::mav::wire::lemma_frame_header(
        header_of(camera, sequence),
        crate::mav::wire::CAMERA_CAPTURE_STATUS_ID,
        payload,
    );
}

/// A status request is answered with a report under the next sequence number: whether the stream
/// records, and if so for how long, and how long ago the recorder booted. It changes nothing but
/// the sequence.
pub proof fn lemma_status_request(stream: VideoStream, clock: Clock)
    ensures
        ({
            let command = MavCmd::RequestCameraCaptureStatus;
            let report = reply_frames(stream, command, clock)[1];
            let payload = report.subrange(10, 10 + report[1] as int);
            let after = after_command(stream, command, clock.now);
            &&& report[4] == (stream.sequence + 1) % 256
            &&& report[5] == stream.camera.system_id
            &&& report[6] == stream.camera.component_id
            &&& report[7] + 256 * report[8] + 65536 * report[9] == 262
            &&& crate::mav::wire::u32_at(payload, 0) == elapsed(clock.boot, clock.now)
            &&& crate::mav::wire::byte_at(payload, 17) == (if stream.is_recording {
                1u8
            } else {
                0u8
            })
            &&& !stream.is_recording ==> crate::mav::wire::u32_at(payload, 8) == 0
            &&& stream.is_recording && stream.recording_start is Some ==> crate::mav::wire::u32_at(
                payload,
                8,
            ) == elapsed(stream.recording_start->Some_0, clock.now)
            &&& after == (VideoStream { sequence: after.sequence, ..stream })
            &&& after.sequence == (stream.sequence + 2) % 256
            &&& task_change(stream, command, 0, clock.now) == TaskChange::Keep
        }),
{
    lemma_status_frame(
        stream.camera,
        crate::mav::next_in_sequence(stream.sequence),
        capture_status(stream, clock.now).0,
        capture_status(stream, clock.now).1,
        elapsed(clock.boot, clock.now),
    );
}

/// A start makes the stream record from now on, whatever it did before; a stop ends that. Each uses
/// one sequence number, and topic and camera stay.
pub proof fn lemma_start_and_stop(stream: VideoStream, now: u64)
    ensures
        ({
            let on = after_command(stream, MavCmd::VideoStartCapture, now);
            let off = after_command(stream, MavCmd::VideoStopCapture, now);
            &&& on.is_recording && on.recording_start == Some(now) && on.has_status_task
            &&& !off.is_recording && off.recording_start is None && !off.has_status_task
            &&& on.sequence == (stream.sequence + 1) % 256
            &&& off.sequence == (stream.sequence + 1) % 256
            &&& on.topic == stream.topic && off.topic == stream.topic
            &&& on.camera == stream.camera && off.camera == stream.camera
        }),
{
}

/// A start begins a report of the stream's camera from now on, under the sequence numbers after the
/// answer, as often as was asked for but not more than ten times a second; a stop ends it, and
/// other commands leave it alone.
pub proof fn lemma_reports(stream: VideoStream, interval_ms: u64, now: u64)
    ensures
        task_change(stream, MavCmd::VideoStartCapture, interval_ms, now) matches TaskChange::Start(
            task,
        ) && task.camera == stream.camera && task.sequence == (stream.sequence + 1) % 256
            && task.recording_start == now && task.interval_ms >= 100 && task.interval_ms
            >= interval_ms && (task.interval_ms == 100 || task.interval_ms == interval_ms),
        task_change(stream, MavCmd::VideoStopCapture, interval_ms, now) == TaskChange::Stop,
        task_change(stream, MavCmd::RequestCameraCaptureStatus, interval_ms, now)
            == TaskChange::Keep,
        task_change(stream, MavCmd::RequestMessage, interval_ms, now) == TaskChange::Keep,
{
}

/// Every report says that the camera records, for how long, and how long ago the recorder booted;
/// reports are numbered one after the other, and nothing else of them changes.
pub proof fn lemma_report_goes_on(task: StatusTask, clock: Clock)
    ensures
        ({
            let frame = tick_frame(task, clock);
            let payload = frame.subrange(10, 10 + frame[1] as int);
            &&& frame[4] == task.sequence
            &&& frame[5] == task.camera.system_id
            &&& frame[6] == task.camera.component_id
            &&& frame[7] + 256 * frame[8] + 65536 * frame[9] == 262
            &&& crate::mav::wire::u32_at(payload, 0) == elapsed(clock.boot, clock.now)
            &&& crate::mav::wire::u32_at(payload, 8) == elapsed(task.recording_start, clock.now)
            &&& crate::mav::wire::byte_at(payload, 17) == 1
            &&& after_tick(task).sequence == (task.sequence + 1) % 256
            &&& after_tick(task) == (StatusTask { sequence: after_tick(task).sequence, ..task })
        }),
{
    lemma_status_frame(
        task.camera,
        task.sequence,
        1,
        elapsed(task.recording_start, clock.now),
        elapsed(clock.boot, clock.now),
    );
}

/// A stream's topic is its name between `video/` and `/stream` if the name has only ASCII letters
/// and digits, and any other character of a name, wherever it stands, does not matter.
pub proof fn lemma_video_topic(before: Seq<char>, c: char, after: Seq<char>)
    requires
        !(48 <= c as int <= 57 || 65 <= c as int <= 90 || 97 <= c as int <= 122),
    ensures
        video_topic(before + seq![c] + after) == video_topic(before + after),
        (forall|i: int|
            0 <= i < before.len() ==> {
                ||| 48 <= (#[trigger] before[i]) as int <= 57
                ||| 65 <= before[i] as int <= 90
                ||| 97 <= before[i] as int <= 122
            }) ==> video_topic(before) == "video/"@ + before + "/stream"@,
{
    let keep = |c: char| crate::text::is_ascii_alphanumeric(c);
    assert(!keep(c));
    Seq::filter_distributes_over_add(before + seq![c], after, keep);
    Seq::filter_distributes_over_add(before, seq![c], keep);
    Seq::filter_distributes_over_add(before, after, keep);
    reveal_with_fuel(Seq::filter, 2);
    assert(seq![c].drop_last() =~= Seq::<char>::empty());
    assert(seq![c].filter(keep) =~= Seq::<char>::empty());
    assert((before + seq![c]).filter(keep) =~= before.filter(keep));
    if forall|i: int|
        0 <= i < before.len() ==> {
            ||| 48 <= (#[trigger] before[i]) as int <= 57
            ||| 65 <= before[i] as int <= 90
            ||| 97 <= before[i] as int <= 122
        } {
        assert forall|i: int| 0 <= i < before.len() implies keep(#[trigger] before[i]) by {
            assert(48 <= before[i] as int <= 57 || 65 <= before[i] as int <= 90 || 97
                <= before[i] as int <= 122);
        }
        lemma_filter_keeps_all(before, keep);
    }
}

/// A frame that acknowledges a command comes from the camera with the given sequence number and
/// holds the number of that command, and that it was accepted.
pub proof fn lemma_ack_frame(
    camera: SystemAndComponent,
    sequence: u8,
    command: MavCmd,
    result: MavResult,
)
    ensures
        ({
            let frame = ack_frame(camera, sequence, command, result);
            let payload = frame.subrange(10, 10 + frame[1] as int);
            &&& frame[0] == 0xFD
            &&& frame[4] == sequence
            &&& frame[5] == camera.system_id
            &&& frame[6] == camera.component_id
            &&& frame[7] + 256 * frame[8] + 65536 * frame[9] == 77
            &&& crate::mav::wire::u16_at(payload, 0) == (match command {
                MavCmd::RequestMessage => 512int,
                MavCmd::RequestCameraCaptureStatus => 527int,
                MavCmd::VideoStartCapture => 2500int,
                MavCmd::VideoStopCapture => 2501int,
            })
            &&& crate::mav::wire::byte_at(payload, 2) == 0
        }),
{
    let payload = crate::mav::wire::ack_payload(command, result);
    crate::mav::wire::lemma_ack_payload(command, result);
    crate::mav::wire::lemma_frame_header(
        header_of(camera, sequence),
        crate::mav::wire::COMMAND_ACK_ID,
        payload,
    );
}

/// What a stream reports of its recording: 1 exactly while it records, and then the time since it
/// began.
pub proof fn lemma_capture_status(stream: VideoStream, now: u64)
    ensures
        capture_status(stream, now).0 == 1 <==> stream.is_recording,
        capture_status(stream, now).0 == 0 <==> !stream.is_recording,
        !stream.is_recording || stream.recording_start is None ==> capture_status(stream, now).1
            == 0,
        stream.is_recording && stream.recording_start is Some ==> capture_status(stream, now).1
            == elapsed(stream.recording_start->Some_0, now),
{
}

/// What a recording command does to a stream and how the stream answers: it acknowledges the command
/// by its own number, in its camera's name and with the next sequence number.
pub proof fn lemma_commands_are_answered(
    stream: &mut VideoStream,
    command: MavCmd,
    interval_ms: u64,
    clock: Clock,
    r: CommandOutcome,
)
    requires
        call_ensures(VideoStream::handle_command, (stream, command, interval_ms, clock), r),
    ensures
        final(stream).topic == old(stream).topic,
        final(stream).camera == old(stream).camera,
        final(stream).sequence == (old(stream).sequence + r.frames@.len()) % 256,
        command != MavCmd::RequestMessage ==> {
            let ack = r.frames@[0]@;
            &&& r.frames@.len() > 0
            &&& ack[4] == old(stream).sequence
            &&& ack[5] == old(stream).camera.system_id
            &&& ack[6] == old(stream).camera.component_id
            &&& ack[7] + 256 * ack[8] + 65536 * ack[9] == 77
        },
        command == MavCmd::VideoStartCapture ==> {
            let ack = r.frames@[0]@;
            &&& r.frames@.len() == 1
            &&& ack[10] + 256 * ack[11] == 2500
            &&& final(stream).is_recording
            &&& final(stream).recording_start == Some(clock.now)
            &&& r.task is Start
        },
        command == MavCmd::VideoStopCapture ==> {
            let ack = r.frames@[0]@;
            &&& r.frames@.len() == 1
            &&& ack[10] + 256 * ack[11] == 2501
            &&& !final(stream).is_recording
            &&& final(stream).recording_start is None
            &&& r.task is Stop
        },
        command == MavCmd::RequestCameraCaptureStatus ==> {
            let ack = r.frames@[0]@;
            &&& r.frames@.len() == 2
            &&& ack[10] + 256 * ack[11] == 527
            &&& final(stream).is_recording == old(stream).is_recording
            &&& final(stream).recording_start == old(stream).recording_start
            &&& r.task is Keep
        },
        command == MavCmd::RequestMessage ==> {
            &&& r.frames@.len() == 0
            &&& *final(stream) == *old(stream)
            &&& r.task is Keep
        },
{
    let before = *old(stream);
    let frames = frames_view(r.frames@);
    assert(frames.len() == r.frames@.len());
    lemma_start_and_stop(before, clock.now);
    lemma_status_request(before, clock);
    lemma_reports(before, interval_ms, clock.now);
    lemma_answers_are_numbered(before, command, clock);
    if command != MavCmd::RequestMessage {
        lemma_answers_acknowledge(before, command, clock);
        assert(frames[0] == r.frames@[0]@);
    }
}

/// A frame built to acknowledge a command holds the number of that command.
pub proof fn lemma_acks_are_built(
    camera: SystemAndComponent,
    sequence: u8,
    command: MavCmd,
    r: Vec<u8>,
)
    requires
        call_ensures(build_command_ack, (camera, sequence, command, MavResult::Accepted), r),
    ensures
        r@[4] == sequence,
        r@[5] == camera.system_id,
        r@[6] == camera.component_id,
        r@[7] + 256 * r@[8] + 65536 * r@[9] == 77,
        crate::mav::wire::u16_at(r@.subrange(10, 10 + r@[1] as int), 0) == (match command {
            MavCmd::RequestMessage => 512int,
            MavCmd::RequestCameraCaptureStatus => 527int,
            MavCmd::VideoStartCapture => 2500int,
            MavCmd::VideoStopCapture => 2501int,
        }),
{
    lemma_ack_frame(camera, sequence, command, MavResult::Accepted);
}

/// A report in a running recording comes from its camera, says that it records and since when, and
/// the numbers go on.
pub proof fn lemma_ticks_report(task: &mut StatusTask, clock: Clock, r: Vec<u8>)
    requires
        call_ensures(StatusTask::tick, (task, clock), r),
    ensures
        r@[4] == old(task).sequence,
        r@[5] == old(task).camera.system_id,
        r@[6] == old(task).camera.component_id,
        r@[7] + 256 * r@[8] + 65536 * r@[9] == 262,
        ({
            let payload = r@.subrange(10, 10 + r@[1] as int);
            &&& crate::mav::wire::u32_at(payload, 0) == elapsed(clock.boot, clock.now)
            &&& crate::mav::wire::u32_at(payload, 8) == elapsed(
                old(task).recording_start,
                clock.now,
            )
            &&& crate::mav::wire::byte_at(payload, 17) == 1
        }),
        final(task).sequence == (old(task).sequence + 1) % 256,
        final(task).camera == old(task).camera,
        final(task).recording_start == old(task).recording_start,
        final(task).interval_ms == old(task).interval_ms,
{
    lemma_report_goes_on(*old(task), clock);
}

/// Each number that a stream gives out is one more than the last; after 255 comes 0.
pub proof fn lemma_numbers_are_given_out(stream: &mut VideoStream, r: u8)
    requires
        call_ensures(VideoStream::next_sequence, (stream,), r),
    ensures
        r == old(stream).sequence,
        final(stream).sequence == (r + 1) % 256,
        final(stream).is_recording == old(stream).is_recording,
        final(stream).recording_start == old(stream).recording_start,
        final(stream).camera == old(stream).camera,
        final(stream).topic == old(stream).topic,
        final(stream).has_status_task == old(stream).has_status_task,
{
    crate::mav::lemma_next_in_sequence(r);
}

/// A time of less than seven weeks is measured in whole milliseconds.
pub proof fn lemma_times_are_measured(start: u64, now: u64, r: u32)
    requires
        call_ensures(elapsed_ms, (start, now), r),
    ensures
        now < start ==> r == 0,
        start <= now && now - start < 4_294_967_296_000_000 ==> r * 1_000_000 <= now - start < (r
            + 1) * 1_000_000,
{
    lemma_elapsed(start, now);
}

/// A new stream does not record and has sent nothing.
pub proof fn lemma_streams_begin_idle(topic: String, camera: SystemAndComponent, r: VideoStream)
    requires
        call_ensures(VideoStream::new, (topic, camera), r),
    ensures
        r.topic == topic,
        r.camera == camera,
        !r.is_recording,
        r.recording_start is None,
        r.sequence == 0,
        !r.has_status_task,
{
}

/// What a stream reports: 1 exactly while it records, and then the time since it began.
pub proof fn lemma_streams_report(stream: &VideoStream, now: u64, r: (u8, u32))
    requires
        call_ensures(VideoStream::capture_status_fields, (stream, now), r),
    ensures
        r.0 == 1 <==> stream.is_recording,
        r.0 == 0 <==> !stream.is_recording,
        !stream.is_recording || stream.recording_start is None ==> r.1 == 0,
        stream.is_recording && stream.recording_start is Some ==> r.1 == elapsed(
            stream.recording_start->Some_0,
            now,
        ),
{
    lemma_capture_status(*stream, now);
}

/// A stream's topic is made of the ASCII letters and digits of its name.
pub proof fn lemma_topics_are_made(name: &str, r: String)
    requires
        call_ensures(video_topic_from_name, (name,), r),
        forall|i: int|
            0 <= i < name@.len() ==> {
                ||| 48 <= (#[trigger] name@[i]) as int <= 57
                ||| 65 <= name@[i] as int <= 90
                ||| 97 <= name@[i] as int <= 122
            },
    ensures
        r@ == "video/"@ + name@ + "/stream"@,
{
    lemma_video_topic(name@, ' ', seq![]);
}

} // verus!
