//! What becomes of a received sample.
use vstd::prelude::*;

use crate::channel_descriptor::{needs_payload, ChannelDescriptor, SchemaSource};
use crate::mav::worker::MavlinkWorker;
use crate::mav::RAW_MAVLINK_OUT_TOPIC;
use crate::recording::queue::{McapWriter, RecordPayload, WriteError, WriterCommand};
use crate::text::{join_texts, starts_with};

verus! {

/// How often a flush is considered, in seconds.
pub const FLUSH_POLL_INTERVAL_SECS: u64 = 1;

/// The address of a component of a system.
#[derive(Debug, Clone, Copy, PartialEq, Eq, Hash, Structural)]
pub struct SystemAndComponent {
    pub system_id: u8,
    pub component_id: u8,
}

/// A payload as it is received.
#[verifier::external_type_specification]
#[verifier::external_body]
pub struct ExZBytes(zenoh::bytes::ZBytes);

/// The bytes of a payload.
pub uninterp spec fn zbytes_content(payload: zenoh::bytes::ZBytes) -> Seq<u8>;

/// `zenoh::bytes::ZBytes::to_bytes` gives the bytes of a payload, which never change.
#[verifier::external_body]
fn zbytes_to_vec(payload: &zenoh::bytes::ZBytes) -> (r: Vec<u8>)
    ensures
        r@ == zbytes_content(*payload),
{
    payload.to_bytes().into_owned()
}

impl RecordPayload for zenoh::bytes::ZBytes {
    open spec fn content(&self) -> Seq<u8> {
        zbytes_content(*self)
    }

    fn bytes(&self) -> (r: Vec<u8>) {
        zbytes_to_vec(self)
    }
}

/// A point in time, told in UTC.
#[verifier::external_type_specification]
#[verifier::external_body]
pub struct ExNaiveDateTime(chrono::NaiveDateTime);

/// The point in time `secs` seconds and `nanos` nanoseconds after the start of 1970, if
/// `chrono::DateTime` covers it.
pub uninterp spec fn utc_time(secs: i64, nanos: u32) -> Option<chrono::NaiveDateTime>;

/// A point in time as `chrono::DateTime::format` writes it.
pub uninterp spec fn utc_text(time: chrono::NaiveDateTime, format: Seq<char>) -> Seq<char>;

/// `chrono::DateTime::from_timestamp` makes a point in time from seconds and nanoseconds since
/// 1970, if it lies in the range that it covers.
#[verifier::external_body]
fn time_at(secs: i64, nanos: u32) -> (r: Option<chrono::NaiveDateTime>)
    ensures
        r == utc_time(secs, nanos),
{
    chrono::DateTime::from_timestamp(secs, nanos).map(|time| time.naive_utc())
}

/// `chrono::DateTime::format` writes a point in time. The format must only ask for years, months,
/// days, hours, minutes and seconds.
#[verifier::external_body]
fn time_text(time: chrono::NaiveDateTime, format: &str) -> (r: String)
    requires
        format@ == "%Y%m%d_%H%M%S"@,
    ensures
        r@ == utc_text(time, format@),
{
    time.and_utc().format(format).to_string()
}

/// The name of the recording that begins at the time that `stamp` tells.
pub open spec fn filename(stamp: Seq<char>) -> Seq<char> {
    "recorder_"@ + stamp + ".mcap"@
}

/// The name of the recording that begins at the time that `stamp` tells.
pub fn filename_for(stamp: &str) -> (r: String)
    ensures
        r@ == filename(stamp@),
{
    let stem = join_texts("recorder_", stamp);
    join_texts(stem.as_str(), ".mcap")
}

/// The name of the recording that begins `secs` seconds and `nanos` nanoseconds after the start
/// of 1970; none if that time cannot be told.
pub fn generate_filename(secs: u64, nanos: u32) -> (r: Option<String>)
    ensures
        match utc_time(secs as i64, nanos) {
            Some(time) => r is Some && r->Some_0@ == filename(utc_text(time, "%Y%m%d_%H%M%S"@)),
            None => r is None,
        },
{
    match time_at(secs as i64, nanos) {
        Some(time) => Some(filename_for(time_text(time, "%Y%m%d_%H%M%S").as_str())),
        None => None,
    }
}

/// Whether samples on a topic are recorded: MAVLink traffic while the vehicle is armed, video
/// while its stream records, and anything else always.
pub open spec fn is_recorded(
    armed: bool,
    streams: Map<Seq<char>, crate::mav::camera::stream::VideoStream>,
    topic: Seq<char>,
) -> bool {
    if "mavlink/"@.is_prefix_of(topic) || "mavlink_raw/"@.is_prefix_of(topic) {
        armed
    } else if "video/"@.is_prefix_of(topic) {
        crate::mav::worker::records_video(streams, topic)
    } else {
        true
    }
}

/// Whether samples on a topic are recorded.
pub fn should_record_sample(worker: &MavlinkWorker, topic: &str) -> (r: bool)
    requires
        worker.wf(),
    ensures
        r == is_recorded(worker.vehicle_arm@, worker.video_streams@, topic@),
{
    if starts_with(topic, "mavlink/") || starts_with(topic, "mavlink_raw/") {
        worker.is_armed()
    } else if starts_with(topic, "video/") {
        worker.is_video_recording(topic)
    } else {
        true
    }
}

/// The nanoseconds since 1970, cut to 64 bits.
pub fn log_time_of(nanos: u128) -> (r: u64)
    ensures
        r == nanos % 0x1_0000_0000_0000_0000,
{
    (nanos % 0x1_0000_0000_0000_0000) as u64
}

/// A received sample without its payload. `timestamp` is when it was published, if that is known,
/// in nanoseconds since 1970.
#[derive(Debug, Clone, Copy)]
pub struct Sample<'a> {
    pub topic: &'a str,
    pub encoding: &'a str,
    pub timestamp: Option<u64>,
}

/// When a sample was published: its timestamp, or else when it was received.
pub open spec fn publish_time_of(timestamp: Option<u64>, log_time: u64) -> u64 {
    match timestamp {
        Some(time) => time,
        None => log_time,
    }
}

/// Whether a sample's payload is handed to the MAVLink worker.
pub open spec fn reaches_worker(topic: Seq<char>) -> bool {
    "mavlink_raw/out"@.is_prefix_of(topic)
}

/// Whether a sample's payload is handed to the MAVLink worker.
pub fn is_enqueued(topic: &str) -> (r: bool)
    ensures
        r == reaches_worker(topic@),
        r == RAW_MAVLINK_OUT_TOPIC@.is_prefix_of(topic@),
{
    starts_with(topic, RAW_MAVLINK_OUT_TOPIC)
}

/// What comes of a sample that is to be recorded: that of a message on its topic at its time. On
/// a topic that is not known the descriptor is made from the sample.
pub open spec fn sample_outcome<P: RecordPayload>(
    known: Set<Seq<char>>,
    sample: Sample<'_>,
    payload: P,
    log_time: u64,
    source: SchemaSource<'_>,
    known_after: Set<Seq<char>>,
    r: Result<Option<WriterCommand<P>>, WriteError>,
) -> bool {
    let topic = sample.topic@;
    let publish_time = publish_time_of(sample.timestamp, log_time);
    if known.contains(topic) {
        &&& known_after == known
        &&& r matches Ok(Some(command))
        &&& crate::recording::queue::writes(command, topic, log_time, publish_time, payload, None)
    } else {
        exists|descriptor: Option<ChannelDescriptor>|
            {
                &&& #[trigger] crate::channel_descriptor::describes(
                    topic,
                    sample.encoding@,
                    payload.content(),
                    source,
                    descriptor,
                )
                &&& crate::recording::queue::new_topic_outcome(
                    known,
                    topic,
                    log_time,
                    publish_time,
                    payload,
                    descriptor,
                    known_after,
                    r,
                )
            }
    }
}

/// What comes of a sample: nothing if it is not to be recorded.
pub open spec fn sample_handled<P: RecordPayload>(
    armed: bool,
    streams: Map<Seq<char>, crate::mav::camera::stream::VideoStream>,
    known: Set<Seq<char>>,
    sample: Sample<'_>,
    payload: P,
    log_time: u64,
    source: SchemaSource<'_>,
    known_after: Set<Seq<char>>,
    r: Result<Option<WriterCommand<P>>, WriteError>,
) -> bool {
    if is_recorded(armed, streams, sample.topic@) {
        sample_outcome(known, sample, payload, log_time, source, known_after, r)
    } else {
        &&& known_after == known
        &&& r == Ok::<Option<WriterCommand<P>>, WriteError>(None)
    }
}

/// Turns samples into commands for the writer.
pub struct SampleProcessor {
    pub mcap: McapWriter,
}

impl SampleProcessor {
    /// The command that records a sample, if it is recorded. `source` is where the schema of a new
    /// topic comes from. The bytes of the payload are asked for only on a new topic with JSON
    /// messages.
    pub fn handle<P: RecordPayload>(
        &mut self,
        worker: &MavlinkWorker,
        sample: Sample<'_>,
        payload: P,
        log_time: u64,
        source: SchemaSource<'_>,
    ) -> (r: Result<Option<WriterCommand<P>>, WriteError>)
        requires
            old(self).mcap.wf(),
            worker.wf(),
        ensures
            final(self).mcap.wf(),
            sample_handled(
                worker.vehicle_arm@,
                worker.video_streams@,
                old(self).mcap@,
                sample,
                payload,
                log_time,
                source,
                final(self).mcap@,
                r,
            ),
            !is_recorded(worker.vehicle_arm@, worker.video_streams@, sample.topic@)
                ==> *final(self) == *old(self),
    {
        if !should_record_sample(worker, sample.topic) {
            return Ok(None);
        }
        let publish_time: u64 = match sample.timestamp {
            Some(time) => time,
            None => log_time,
        };
        let descriptor = if self.mcap.is_known(sample.topic) {
            None
        } else {
            let bytes = if needs_payload(sample.encoding) {
                payload.bytes()
            } else {
                Vec::new()
            };
            ChannelDescriptor::new(sample.topic, sample.encoding, bytes.as_slice(), source)
        };
        let ghost described = descriptor;
        let ghost content = payload;
        let new_channel = || -> (r: Option<ChannelDescriptor>)
            ensures
                r == descriptor,
            { descriptor };
        let r = self.mcap.write_message(sample.topic, log_time, publish_time, payload, new_channel);
        proof {
            if !old(self).mcap@.contains(sample.topic@) {
                assert(crate::channel_descriptor::describes(
                    sample.topic@,
                    sample.encoding@,
                    content.content(),
                    source,
                    described,
                ));
                assert(crate::recording::queue::new_topic_outcome(
                    old(self).mcap@,
                    sample.topic@,
                    log_time,
                    publish_time,
                    content,
                    described,
                    self.mcap@,
                    r,
                ));
            }
        }
        r
    }
}

/// A stream's topic is a video topic and no MAVLink topic, so its samples are recorded exactly
/// while the stream records, whether the vehicle is armed or not.
pub proof fn lemma_video_needs_its_stream(
    armed: bool,
    streams: Map<Seq<char>, crate::mav::camera::stream::VideoStream>,
    name: Seq<char>,
)
    ensures
        ({
            let topic = crate::mav::camera::stream::video_topic(name);
            is_recorded(armed, streams, topic) == crate::mav::worker::records_video(streams, topic)
        }),
{
    let topic = crate::mav::camera::stream::video_topic(name);
    reveal_strlit("video/");
    reveal_strlit("mavlink/");
    reveal_strlit("mavlink_raw/");
    assert(topic[0] == 'v');
    assert("mavlink/"@[0] == 'm');
    assert("mavlink_raw/"@[0] == 'm');
    assert("video/"@ =~= topic.take("video/"@.len() as int));
}

/// Frames from the vehicle reach the worker whether it is armed or not, and are recorded only
/// while it is armed.
pub proof fn lemma_raw_traffic(
    armed: bool,
    streams: Map<Seq<char>, crate::mav::camera::stream::VideoStream>,
    topic: Seq<char>,
)
    requires
        RAW_MAVLINK_OUT_TOPIC@.is_prefix_of(topic),
    ensures
        is_recorded(armed, streams, topic) == armed,
{
    reveal_strlit("mavlink_raw/");
    reveal_strlit("mavlink_raw/out");
    let prefix = "mavlink_raw/"@;
    assert(prefix =~= RAW_MAVLINK_OUT_TOPIC@.take(prefix.len() as int));
    assert(prefix =~= topic.take(prefix.len() as int)) by {
        assert forall|i: int| 0 <= i < prefix.len() implies prefix[i] == topic[i] by {
            assert(RAW_MAVLINK_OUT_TOPIC@[i] == topic[i]);
        }
    }
}

/// After a command to start capturing, samples of every stream that it addresses are recorded;
/// after one to stop, they are not. Other streams are recorded as before.
pub proof fn lemma_commands_switch_recording(
    data: crate::mav::wire::CommandLong,
    interval_ms: u64,
    clock: crate::mav::camera::stream::Clock,
    before: crate::text_map::TextMap<crate::mav::camera::stream::VideoStream>,
    after: crate::text_map::TextMap<crate::mav::camera::stream::VideoStream>,
    r: crate::mav::camera::CommandReplies,
    i: int,
    name: Seq<char>,
    armed: bool,
)
    requires
        before.wf(),
        after.wf(),
        crate::mav::camera::commanded(data, interval_ms, clock, before, after, r),
        0 <= i < before.keys@.len(),
        before.keys@[i]@ == crate::mav::camera::stream::video_topic(name),
    ensures
        ({
            let topic = before.keys@[i]@;
            let command = crate::mav::camera::recording_command(data.command);
            let addressed = crate::mav::camera::addresses(
                data.target_system,
                data.target_component,
                before.values@[i].camera,
            );
            is_recorded(armed, after@, topic) == (if addressed && command == Some(
                crate::mav::wire::MavCmd::VideoStartCapture,
            ) {
                true
            } else if addressed && command == Some(crate::mav::wire::MavCmd::VideoStopCapture) {
                false
            } else {
                is_recorded(armed, before@, topic)
            })
        }),
{
    lemma_video_needs_its_stream(armed, before@, name);
    lemma_video_needs_its_stream(armed, after@, name);
    before.lemma_at(i);
    after.lemma_at(i);
    assert(after.values@[i] == crate::mav::camera::stream_after(
        before.values@[i],
        data,
        clock.now,
    ));
}

/// A topic that begins with none of `mavlink/`, `mavlink_raw/` and `video/` is recorded whatever
/// the state of the vehicle and of the streams.
pub proof fn lemma_other_topics_are_always_recorded(
    armed: bool,
    streams: Map<Seq<char>, crate::mav::camera::stream::VideoStream>,
    topic: Seq<char>,
)
    requires
        forall|rest: Seq<char>| topic != #[trigger] ("mavlink/"@ + rest),
        forall|rest: Seq<char>| topic != #[trigger] ("mavlink_raw/"@ + rest),
        forall|rest: Seq<char>| topic != #[trigger] ("video/"@ + rest),
    ensures
        is_recorded(armed, streams, topic),
{
    if "mavlink/"@.is_prefix_of(topic) {
        lemma_prefix_splits("mavlink/"@, topic);
    }
    if "mavlink_raw/"@.is_prefix_of(topic) {
        lemma_prefix_splits("mavlink_raw/"@, topic);
    }
    if "video/"@.is_prefix_of(topic) {
        lemma_prefix_splits("video/"@, topic);
    }
}

/// A text with a prefix is the prefix and the rest.
proof fn lemma_prefix_splits(prefix: Seq<char>, text: Seq<char>)
    requires
        prefix.is_prefix_of(text),
    ensures
        text == prefix + text.skip(prefix.len() as int),
{
    assert(text =~= prefix + text.skip(prefix.len() as int));
}

/// MAVLink traffic, decoded or raw, is recorded exactly while the vehicle is armed, whatever the
/// streams do.
pub proof fn lemma_mavlink_needs_an_armed_vehicle(
    armed: bool,
    streams: Map<Seq<char>, crate::mav::camera::stream::VideoStream>,
    rest: Seq<char>,
)
    ensures
        is_recorded(armed, streams, "mavlink/"@ + rest) == armed,
        is_recorded(armed, streams, "mavlink_raw/"@ + rest) == armed,
{
    assert("mavlink/"@ =~= ("mavlink/"@ + rest).take("mavlink/"@.len() as int));
    assert("mavlink_raw/"@ =~= ("mavlink_raw/"@ + rest).take("mavlink_raw/"@.len() as int));
}

/// Video is recorded exactly while there is a stream on its topic that records, whether the vehicle
/// is armed or not.
pub proof fn lemma_video_needs_a_recording_stream(
    armed: bool,
    streams: Map<Seq<char>, crate::mav::camera::stream::VideoStream>,
    rest: Seq<char>,
)
    ensures
        ({
            let topic = "video/"@ + rest;
            is_recorded(armed, streams, topic) <==> streams.contains_key(topic)
                && streams[topic].is_recording
        }),
{
    reveal_strlit("video/");
    reveal_strlit("mavlink/");
    reveal_strlit("mavlink_raw/");
    let topic = "video/"@ + rest;
    assert(topic[0] == 'v');
    assert("mavlink/"@[0] == 'm');
    assert("mavlink_raw/"@[0] == 'm');
    assert("video/"@ =~= topic.take("video/"@.len() as int));
}

/// The name of a recording tells its time: names of recordings with different times differ.
pub proof fn lemma_filename(stamp: Seq<char>, other: Seq<char>)
    ensures
        filename(stamp).len() == stamp.len() + 14,
        filename(stamp).take(9) == "recorder_"@,
        filename(stamp).subrange(9, 9 + stamp.len() as int) == stamp,
        filename(stamp).skip(9 + stamp.len() as int) == ".mcap"@,
        filename(stamp) == filename(other) ==> stamp == other,
{
    reveal_strlit("recorder_");
    reveal_strlit(".mcap");
    assert(filename(stamp).take(9) =~= "recorder_"@);
    assert(filename(stamp).subrange(9, 9 + stamp.len() as int) =~= stamp);
    assert(filename(stamp).skip(9 + stamp.len() as int) =~= ".mcap"@);
    assert(filename(other).subrange(9, 9 + other.len() as int) =~= other);
}

/// Whatever becomes of a sample that is to be recorded, a message that is queued for it is on its
/// topic and holds its payload, the time at which it was received, and the time at which it was
/// published if it tells that, else the time at which it was received. On a known topic such a
/// message is always queued, without a descriptor.
pub proof fn lemma_samples_are_queued_whole<P: RecordPayload>(
    known: Set<Seq<char>>,
    sample: Sample<'_>,
    payload: P,
    log_time: u64,
    source: SchemaSource<'_>,
    known_after: Set<Seq<char>>,
    r: Result<Option<WriterCommand<P>>, WriteError>,
)
    requires
        sample_outcome(known, sample, payload, log_time, source, known_after, r),
    ensures
        known.contains(sample.topic@) ==> r matches Ok(Some(WriterCommand::Write(_, None))),
        r matches Ok(Some(command)) ==> {
            &&& command matches WriterCommand::Write(message, descriptor)
            &&& message.topic@ == sample.topic@
            &&& message.payload == payload
            &&& message.log_time == log_time
            &&& sample.timestamp is Some ==> message.publish_time == sample.timestamp->Some_0
            &&& sample.timestamp is None ==> message.publish_time == log_time
            &&& descriptor is Some <==> !known.contains(sample.topic@)
            &&& descriptor is Some ==> descriptor->Some_0.topic@ == sample.topic@
            &&& known_after == known.insert(sample.topic@)
        },
        r is Ok,
        r == Ok::<Option<WriterCommand<P>>, WriteError>(None) ==> known_after == known
            && !known.contains(sample.topic@) && crate::channel_descriptor::describes(
            sample.topic@,
            sample.encoding@,
            payload.content(),
            source,
            None,
        ),
{
    if known.contains(sample.topic@) {
        assert(known.insert(sample.topic@) =~= known);
    }
}


/// Frames from the vehicle, on their topic or below it, reach the worker, and nothing else does.
pub proof fn lemma_worker_topics(topic: Seq<char>, rest: Seq<char>)
    ensures
        reaches_worker("mavlink_raw/out"@ + rest),
        reaches_worker(topic) ==> topic == "mavlink_raw/out"@ + topic.skip(15),
{
    reveal_strlit("mavlink_raw/out");
    assert("mavlink_raw/out"@ =~= ("mavlink_raw/out"@ + rest).take(15));
    if reaches_worker(topic) {
        lemma_prefix_splits("mavlink_raw/out"@, topic);
    }
}

/// A sample that is not to be recorded leaves no trace. One that is to be recorded, on a known
/// topic, is always queued.
pub proof fn lemma_samples_are_handled<P: RecordPayload>(
    armed: bool,
    streams: Map<Seq<char>, crate::mav::camera::stream::VideoStream>,
    known: Set<Seq<char>>,
    sample: Sample<'_>,
    payload: P,
    log_time: u64,
    source: SchemaSource<'_>,
    known_after: Set<Seq<char>>,
    r: Result<Option<WriterCommand<P>>, WriteError>,
)
    requires
        sample_handled(
            armed,
            streams,
            known,
            sample,
            payload,
            log_time,
            source,
            known_after,
            r,
        ),
    ensures
        r is Ok,
        !is_recorded(armed, streams, sample.topic@) ==> r->Ok_0 is None && known_after == known,
        is_recorded(armed, streams, sample.topic@) && known.contains(sample.topic@) ==> r->Ok_0
            is Some,
        is_recorded(armed, streams, sample.topic@) && r->Ok_0 is None
            ==> crate::channel_descriptor::describes(
            sample.topic@,
            sample.encoding@,
            payload.content(),
            source,
            None,
        ),
        r->Ok_0 is Some ==> {
            let command = r->Ok_0->Some_0;
            &&& is_recorded(armed, streams, sample.topic@)
            &&& command is Write
            &&& command->Write_0.topic@ == sample.topic@
            &&& command->Write_0.payload == payload
            &&& command->Write_0.log_time == log_time
        },
{
    if is_recorded(armed, streams, sample.topic@) {
        lemma_samples_are_queued_whole(
            known,
            sample,
            payload,
            log_time,
            source,
            known_after,
            r,
        );
    }
}

/// Samples are recorded like this, by the beginning of their topic: MAVLink traffic exactly while
/// the vehicle is armed, video exactly while the stream on the topic records, and anything else
/// always.
pub proof fn lemma_what_is_recorded(worker: &MavlinkWorker, topic: &str, r: bool)
    requires
        call_ensures(should_record_sample, (worker, topic), r),
    ensures
        (exists|rest: Seq<char>| topic@ == #[trigger] ("mavlink/"@ + rest)) ==> r
            == worker.vehicle_arm@,
        (exists|rest: Seq<char>| topic@ == #[trigger] ("mavlink_raw/"@ + rest)) ==> r
            == worker.vehicle_arm@,
        (exists|rest: Seq<char>| topic@ == #[trigger] ("video/"@ + rest)) ==> (r
            <==> worker.video_streams@.contains_key(topic@)
            && worker.video_streams@[topic@].is_recording),
        (forall|rest: Seq<char>| topic@ != #[trigger] ("mavlink/"@ + rest)) && (forall|
            rest: Seq<char>,
        | topic@ != #[trigger] ("mavlink_raw/"@ + rest)) && (forall|rest: Seq<char>|
            topic@ != #[trigger] ("video/"@ + rest)) ==> r,
{
    let armed = worker.vehicle_arm@;
    let streams = worker.video_streams@;
    if exists|rest: Seq<char>| topic@ == #[trigger] ("mavlink/"@ + rest) {
        let rest = choose|rest: Seq<char>| topic@ == #[trigger] ("mavlink/"@ + rest);
        lemma_mavlink_needs_an_armed_vehicle(armed, streams, rest);
    }
    if exists|rest: Seq<char>| topic@ == #[trigger] ("mavlink_raw/"@ + rest) {
        let rest = choose|rest: Seq<char>| topic@ == #[trigger] ("mavlink_raw/"@ + rest);
        lemma_mavlink_needs_an_armed_vehicle(armed, streams, rest);
    }
    if exists|rest: Seq<char>| topic@ == #[trigger] ("video/"@ + rest) {
        let rest = choose|rest: Seq<char>| topic@ == #[trigger] ("video/"@ + rest);
        lemma_video_needs_a_recording_stream(armed, streams, rest);
    }
    if (forall|rest: Seq<char>| topic@ != #[trigger] ("mavlink/"@ + rest)) && (forall|
        rest: Seq<char>,
    | topic@ != #[trigger] ("mavlink_raw/"@ + rest)) && (forall|rest: Seq<char>|
        topic@ != #[trigger] ("video/"@ + rest)) {
        lemma_other_topics_are_always_recorded(armed, streams, topic@);
    }
}

/// Payloads on the topic of frames from the vehicle, or below it, are handed to the worker, and no
/// others.
pub proof fn lemma_what_is_enqueued(topic: &str, r: bool)
    requires
        call_ensures(is_enqueued, (topic,), r),
    ensures
        r <==> exists|rest: Seq<char>| topic@ == #[trigger] ("mavlink_raw/out"@ + rest),
{
    if r {
        lemma_worker_topics(topic@, seq![]);
        assert(topic@ == "mavlink_raw/out"@ + topic@.skip(15));
    }
    if exists|rest: Seq<char>| topic@ == #[trigger] ("mavlink_raw/out"@ + rest) {
        let rest = choose|rest: Seq<char>| topic@ == #[trigger] ("mavlink_raw/out"@ + rest);
        lemma_worker_topics(topic@, rest);
    }
}

/// A time that fits in 64 bits is kept as it is; of others the lowest 64 bits are.
pub proof fn lemma_log_times(nanos: u128, r: u64)
    requires
        call_ensures(log_time_of, (nanos,), r),
    ensures
        nanos <= u64::MAX ==> r == nanos,
        exists|rounds: int| nanos == #[trigger] (rounds * 0x1_0000_0000_0000_0000) + r,
{
    let rounds = nanos as int / 0x1_0000_0000_0000_0000;
    assert(nanos == rounds * 0x1_0000_0000_0000_0000 + r);
}

/// The name of a recording is made of the time at which it begins, if that can be told.
pub proof fn lemma_recordings_are_named(secs: u64, nanos: u32, r: Option<String>)
    requires
        call_ensures(generate_filename, (secs, nanos), r),
    ensures
        r is Some <==> utc_time(secs as i64, nanos) is Some,
        r is Some ==> r->Some_0@ == "recorder_"@ + utc_text(
            utc_time(secs as i64, nanos)->Some_0,
            "%Y%m%d_%H%M%S"@,
        ) + ".mcap"@,
{
}

/// What comes of a sample: nothing if it is not to be recorded; else, on a known topic, a message
/// with the sample's topic and payload, the time of its arrival, and the time at which it was
/// published if that is known.
pub proof fn lemma_samples_become_messages<P: RecordPayload>(
    processor: &mut SampleProcessor,
    worker: &MavlinkWorker,
    sample: Sample<'_>,
    payload: P,
    log_time: u64,
    source: SchemaSource<'_>,
    r: Result<Option<WriterCommand<P>>, WriteError>,
    recorded: bool,
)
    requires
        call_ensures(
            SampleProcessor::handle::<P>,
            (processor, worker, sample, payload, log_time, source),
            r,
        ),
        call_ensures(should_record_sample, (worker, sample.topic), recorded),
    ensures
        r is Ok,
        !recorded ==> r->Ok_0 is None && final(processor).mcap@ == old(processor).mcap@,
        recorded && old(processor).mcap@.contains(sample.topic@) ==> r->Ok_0 is Some,
        recorded && r->Ok_0 is None ==> crate::channel_descriptor::describes(
            sample.topic@,
            sample.encoding@,
            payload.content(),
            source,
            None,
        ),
        r->Ok_0 is Some ==> {
            let command = r->Ok_0->Some_0;
            &&& recorded
            &&& command is Write
            &&& command->Write_0.topic@ == sample.topic@
            &&& command->Write_0.payload == payload
            &&& command->Write_0.log_time == log_time
            &&& sample.timestamp is Some ==> command->Write_0.publish_time
                == sample.timestamp->Some_0
            &&& sample.timestamp is None ==> command->Write_0.publish_time == log_time
            &&& command->Write_1 is Some <==> !old(processor).mcap@.contains(sample.topic@)
            &&& final(processor).mcap@ == old(processor).mcap@.insert(sample.topic@)
        },
{
    let known = old(processor).mcap@;
    let known_after = final(processor).mcap@;
    lemma_samples_are_handled(
        worker.vehicle_arm@,
        worker.video_streams@,
        known,
        sample,
        payload,
        log_time,
        source,
        known_after,
        r,
    );
    if recorded {
        lemma_samples_are_queued_whole(
            known,
            sample,
            payload,
            log_time,
            source,
            known_after,
            r,
        );
    }
}

} // verus!
