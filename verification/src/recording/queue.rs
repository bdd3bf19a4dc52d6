//! What is handed to the writer, and when.
use vstd::prelude::*;

use crate::channel_descriptor::ChannelDescriptor;
use crate::recording::config::McapWriteConfig;
use crate::text::{join_texts, same_text};
use crate::text_map::TextMap;

verus! {

/// How many commands may wait for the writer.
pub const WRITER_QUEUE_CAPACITY: usize = 4096;

/// A payload to record. Its bytes are asked for only when it is written.
pub trait RecordPayload {
    /// The bytes of the payload.
    spec fn content(&self) -> Seq<u8>;

    /// The bytes of the payload.
    fn bytes(&self) -> (r: Vec<u8>)
        ensures
            r@ == self.content(),
    ;
}

impl RecordPayload for Vec<u8> {
    open spec fn content(&self) -> Seq<u8> {
        self@
    }

    fn bytes(&self) -> (r: Vec<u8>) {
        self.clone()
    }
}

/// A message to record.
#[derive(Debug)]
pub struct QueuedMessage<P> {
    pub topic: String,
    pub log_time: u64,
    pub publish_time: u64,
    pub payload: P,
}

/// A command for the writer. A message on a new topic comes with the topic's descriptor.
pub enum WriterCommand<P> {
    Write(QueuedMessage<P>, Option<ChannelDescriptor>),
    Flush,
    Finish,
}

/// Why a message cannot be recorded.
#[derive(Debug)]
pub enum WriteError {
    TopicMismatch(String),
}

impl WriteError {
    /// The error in words.
    pub fn message(&self) -> (r: String)
        ensures
            r@ == match *self {
                WriteError::TopicMismatch(topic) => "Channel descriptor topic mismatch: "@
                    + topic@,
            },
    {
        match self {
            WriteError::TopicMismatch(topic) => join_texts(
                "Channel descriptor topic mismatch: ",
                topic.as_str(),
            ),
        }
    }
}

/// The command writes this message with this descriptor.
pub open spec fn writes<P>(
    command: WriterCommand<P>,
    topic: Seq<char>,
    log_time: u64,
    publish_time: u64,
    payload: P,
    new_channel: Option<ChannelDescriptor>,
) -> bool {
    &&& command matches WriterCommand::Write(message, descriptor)
    &&& message.topic@ == topic
    &&& message.log_time == log_time
    &&& message.publish_time == publish_time
    &&& message.payload == payload
    &&& descriptor == new_channel
}

/// Knows the topics whose descriptor was handed to the writer.
pub struct McapWriter {
    known_topics: TextMap<()>,
}

impl View for McapWriter {
    type V = Set<Seq<char>>;

    closed spec fn view(&self) -> Set<Seq<char>> {
        self.known_topics@.dom()
    }
}

/// What comes of a message on a topic that is not known, given its descriptor: the topics known
/// afterwards and the command, if any.
pub open spec fn new_topic_outcome<P>(
    known: Set<Seq<char>>,
    topic: Seq<char>,
    log_time: u64,
    publish_time: u64,
    payload: P,
    descriptor: Option<ChannelDescriptor>,
    known_after: Set<Seq<char>>,
    r: Result<Option<WriterCommand<P>>, WriteError>,
) -> bool {
    match descriptor {
        None => known_after == known && r == Ok::<Option<WriterCommand<P>>, WriteError>(None),
        Some(descriptor) => if descriptor.topic@ == topic {
            &&& known_after == known.insert(topic)
            &&& r matches Ok(Some(command))
            &&& writes(command, topic, log_time, publish_time, payload, Some(descriptor))
        } else {
            &&& known_after == known
            &&& r matches Err(WriteError::TopicMismatch(found))
            &&& found@ == descriptor.topic@
        },
    }
}

impl McapWriter {
    /// The topics are in order.
    pub closed spec fn wf(&self) -> bool {
        self.known_topics.wf()
    }

    /// No topic is known yet.
    pub fn new() -> (r: Self)
        ensures
            r.wf(),
            r@ == Set::<Seq<char>>::empty(),
    {
        let r = McapWriter { known_topics: TextMap::new() };
        assert(r@ =~= Set::<Seq<char>>::empty());
        r
    }

    /// Whether a topic's descriptor was handed to the writer.
    pub fn is_known(&self, topic: &str) -> (r: bool)
        requires
            self.wf(),
        ensures
            r == self@.contains(topic@),
    {
        self.known_topics.contains_key(topic)
    }

    /// The command that records a message. On a topic that is not known `new_channel` is asked
    /// for a descriptor; without one the message is left out, and one for another topic is an
    /// error.
    pub fn write_message<P, F>(
        &mut self,
        topic: &str,
        log_time: u64,
        publish_time: u64,
        payload: P,
        new_channel: F,
    ) -> (r: Result<Option<WriterCommand<P>>, WriteError>) where
        F: FnOnce() -> Option<ChannelDescriptor>,

        requires
            old(self).wf(),
            call_requires(new_channel, ()),
        ensures
            final(self).wf(),
            old(self)@.contains(topic@) ==> {
                &&& final(self)@ == old(self)@
                &&& r matches Ok(Some(command))
                &&& writes(command, topic@, log_time, publish_time, payload, None)
            },
            !old(self)@.contains(topic@) ==> exists|descriptor: Option<ChannelDescriptor>| #[trigger]
                call_ensures(new_channel, (), descriptor) && new_topic_outcome(
                    old(self)@,
                    topic@,
                    log_time,
                    publish_time,
                    payload,
                    descriptor,
                    final(self)@,
                    r,
                ),
    {
        if self.is_known(topic) {
            let message = QueuedMessage {
                topic: topic.to_owned(),
                log_time,
                publish_time,
                payload,
            };
            return Ok(Some(WriterCommand::Write(message, None)));
        }
        let descriptor = new_channel();
        self.write_on_new_topic(topic, log_time, publish_time, payload, descriptor)
    }

    /// The command that records a message on a topic that is not known, given its descriptor.
    pub fn write_on_new_topic<P>(
        &mut self,
        topic: &str,
        log_time: u64,
        publish_time: u64,
        payload: P,
        descriptor: Option<ChannelDescriptor>,
    ) -> (r: Result<Option<WriterCommand<P>>, WriteError>)
        requires
            old(self).wf(),
            !old(self)@.contains(topic@),
        ensures
            final(self).wf(),
            new_topic_outcome(
                old(self)@,
                topic@,
                log_time,
                publish_time,
                payload,
                descriptor,
                final(self)@,
                r,
            ),
    {
        let ghost known = self@;
        match descriptor {
            None => Ok(None),
            Some(descriptor) => {
                if !same_text(descriptor.topic.as_str(), topic) {
                    return Err(WriteError::TopicMismatch(descriptor.topic));
                }
                self.known_topics.insert(topic.to_owned(), ());
                assert(self@ =~= known.insert(topic@));
                let message = QueuedMessage {
                    topic: topic.to_owned(),
                    log_time,
                    publish_time,
                    payload,
                };
                Ok(Some(WriterCommand::Write(message, Some(descriptor))))
            },
        }
    }

    /// The command that flushes the file.
    pub fn flush<P>(&self) -> (r: WriterCommand<P>)
        ensures
            r == WriterCommand::<P>::Flush,
    {
        WriterCommand::Flush
    }

    /// The command that ends the file.
    pub fn send_finish<P>(&self) -> (r: WriterCommand<P>)
        ensures
            r == WriterCommand::<P>::Finish,
    {
        WriterCommand::Finish
    }
}

/// How the writer's thread ended.
#[derive(Debug)]
pub enum JoinOutcome {
    /// The writer returned; an error comes in words.
    Returned(Result<(), String>),
    /// The writer panicked.
    Panicked,
    /// Waiting for the writer failed.
    WaitFailed,
}

/// A recording: when it was flushed last, and whether its writer is still to be waited for.
/// Times are readings of one monotonic clock, in nanoseconds.
#[derive(Debug)]
pub struct Mcap {
    pub flush_interval_secs: u64,
    pub last_flush: u64,
    pub has_writer_thread: bool,
}

/// The nanoseconds from `start` to `now`; none if `start` lies ahead.
pub open spec fn nanos_since(start: u64, now: u64) -> int {
    if now < start {
        0
    } else {
        now - start
    }
}

impl Mcap {
    /// Whether the flush interval has passed since the last flush.
    pub open spec fn flush_due(&self, now: u64) -> bool {
        nanos_since(self.last_flush, now) >= self.flush_interval_secs * 1_000_000_000
    }

    /// A recording that begins now.
    pub fn try_new(config: McapWriteConfig, now: u64) -> (r: Self)
        ensures
            r.flush_interval_secs == config.flush_interval_secs,
            r.last_flush == now,
            r.has_writer_thread,
    {
        Mcap {
            flush_interval_secs: config.flush_interval_secs,
            last_flush: now,
            has_writer_thread: true,
        }
    }

    /// The command to send if the flush interval has passed since the last flush.
    pub fn flush<P>(&self, writer: &McapWriter, now: u64) -> (r: Option<WriterCommand<P>>)
        ensures
            r == (if self.flush_due(now) {
                Some(WriterCommand::<P>::Flush)
            } else {
                None
            }),
    {
        let elapsed: u128 = if now < self.last_flush {
            0
        } else {
            (now - self.last_flush) as u128
        };
        let interval: u128 = self.flush_interval_secs as u128 * 1_000_000_000;
        if elapsed < interval {
            None
        } else {
            Some(writer.flush())
        }
    }

    /// Notes that a flush was sent.
    pub fn flush_sent(&mut self, now: u64)
        ensures
            *final(self) == (Mcap { last_flush: now, ..*old(self) }),
    {
        self.last_flush = now;
    }

    /// The commands that end the recording: a flush, then the end of the file.
    pub fn finish<P>(&self, writer: &McapWriter) -> (r: Vec<WriterCommand<P>>)
        ensures
            r@ == seq![WriterCommand::<P>::Flush, WriterCommand::<P>::Finish],
    {
        let mut commands: Vec<WriterCommand<P>> = Vec::new();
        commands.push(writer.flush());
        commands.push(writer.send_finish());
        commands
    }

    /// Whether the writer's thread is still to be waited for; it is waited for once.
    pub fn take_writer_thread(&mut self) -> (r: bool)
        ensures
            r == old(self).has_writer_thread,
            *final(self) == (Mcap { has_writer_thread: false, ..*old(self) }),
    {
        let r = self.has_writer_thread;
        self.has_writer_thread = false;
        r
    }
}

/// What the end of the writer's thread means for the recording; errors come in words.
pub fn join_result(outcome: JoinOutcome) -> (r: Result<(), String>)
    ensures
        match outcome {
            JoinOutcome::Returned(result) => r == result,
            JoinOutcome::Panicked => r is Err && r->Err_0@ == "MCAP writer thread panicked"@,
            JoinOutcome::WaitFailed => r is Err && r->Err_0@ == "MCAP writer join task failed"@,
        },
{
    match outcome {
        JoinOutcome::Returned(result) => result,
        JoinOutcome::Panicked => Err("MCAP writer thread panicked".to_owned()),
        JoinOutcome::WaitFailed => Err("MCAP writer join task failed".to_owned()),
    }
}

/// Right after a flush no other one is due, and one becomes due once the interval has passed.
pub proof fn lemma_flushes_keep_apart(recording: Mcap, flushed: u64, now: u64)
    requires
        recording.flush_interval_secs > 0,
        flushed <= now,
    ensures
        (Mcap { last_flush: flushed, ..recording }).flush_due(now) <==> now - flushed
            >= recording.flush_interval_secs * 1_000_000_000,
        !(Mcap { last_flush: flushed, ..recording }).flush_due(flushed),
{
}

/// A command that writes a message holds its topic, both of its times, its payload and its
/// descriptor, each in its own place.
pub proof fn lemma_queued_message<P>(
    command: WriterCommand<P>,
    topic: Seq<char>,
    log_time: u64,
    publish_time: u64,
    payload: P,
    new_channel: Option<ChannelDescriptor>,
)
    requires
        writes(command, topic, log_time, publish_time, payload, new_channel),
    ensures
        command is Write,
        command->Write_0.topic@ == topic,
        command->Write_0.log_time == log_time,
        command->Write_0.publish_time == publish_time,
        command->Write_0.payload == payload,
        command->Write_1 == new_channel,
{
}

/// The first message on a topic is queued with the topic's descriptor, and makes the topic known,
/// exactly if there is a descriptor and it is for that topic. Without one nothing happens, and one
/// for another topic is an error that names that topic. No other topic is affected.
pub proof fn lemma_first_message<P>(
    known: Set<Seq<char>>,
    topic: Seq<char>,
    log_time: u64,
    publish_time: u64,
    payload: P,
    descriptor: Option<ChannelDescriptor>,
    known_after: Set<Seq<char>>,
    r: Result<Option<WriterCommand<P>>, WriteError>,
    other: Seq<char>,
)
    requires
        !known.contains(topic),
        new_topic_outcome(
            known,
            topic,
            log_time,
            publish_time,
            payload,
            descriptor,
            known_after,
            r,
        ),
    ensures
        known_after.contains(topic) <==> descriptor is Some && descriptor->Some_0.topic@ == topic,
        other != topic ==> (known_after.contains(other) <==> known.contains(other)),
        r is Err <==> descriptor is Some && descriptor->Some_0.topic@ != topic,
        r is Err ==> r->Err_0 is TopicMismatch && r->Err_0->TopicMismatch_0@
            == descriptor->Some_0.topic@,
        r is Ok ==> (r->Ok_0 is Some <==> known_after.contains(topic)),
        r is Ok && r->Ok_0 is Some ==> {
            let command = r->Ok_0->Some_0;
            &&& command is Write
            &&& command->Write_0.topic@ == topic
            &&& command->Write_0.log_time == log_time
            &&& command->Write_0.publish_time == publish_time
            &&& command->Write_0.payload == payload
            &&& command->Write_1 == descriptor
        },
{
}

/// A file is flushed exactly if the interval, in seconds, has passed since the last flush.
pub proof fn lemma_flushes<P>(
    recording: &Mcap,
    writer: &McapWriter,
    now: u64,
    r: Option<WriterCommand<P>>,
)
    requires
        call_ensures(Mcap::flush::<P>, (recording, writer, now), r),
    ensures
        recording.last_flush <= now ==> (r is Some <==> now - recording.last_flush
            >= recording.flush_interval_secs * 1_000_000_000),
        now < recording.last_flush ==> (r is Some <==> recording.flush_interval_secs == 0),
        r is Some ==> r->Some_0 is Flush,
{
}

/// After a flush the interval begins anew; the rest stays.
pub proof fn lemma_flush_is_noted(recording: &mut Mcap, now: u64)
    requires
        call_ensures(Mcap::flush_sent, (recording, now), ()),
    ensures
        final(recording).last_flush == now,
        final(recording).flush_interval_secs == old(recording).flush_interval_secs,
        final(recording).has_writer_thread == old(recording).has_writer_thread,
{
}

/// A recording ends with a flush and then its end, in this order.
pub proof fn lemma_recordings_end<P>(
    recording: &Mcap,
    writer: &McapWriter,
    r: Vec<WriterCommand<P>>,
)
    requires
        call_ensures(Mcap::finish::<P>, (recording, writer), r),
    ensures
        r@.len() == 2,
        r@[0] is Flush,
        r@[1] is Finish,
{
}

/// A new recording counts as flushed when it begins, and its writer is to be waited for.
pub proof fn lemma_recordings_begin(config: McapWriteConfig, now: u64, r: Mcap)
    requires
        call_ensures(Mcap::try_new, (config, now), r),
    ensures
        r.flush_interval_secs == config.flush_interval_secs,
        r.last_flush == now,
        r.has_writer_thread,
{
}

/// The writer is waited for once.
pub proof fn lemma_waited_for_once(recording: &mut Mcap, r: bool)
    requires
        call_ensures(Mcap::take_writer_thread, (recording,), r),
    ensures
        r <==> old(recording).has_writer_thread,
        !final(recording).has_writer_thread,
        final(recording).last_flush == old(recording).last_flush,
        final(recording).flush_interval_secs == old(recording).flush_interval_secs,
{
}

/// What the writer returned is handed on; a writer that did not return is an error.
pub proof fn lemma_writer_ends(outcome: JoinOutcome, r: Result<(), String>)
    requires
        call_ensures(join_result, (outcome,), r),
    ensures
        r is Ok <==> outcome is Returned && outcome->Returned_0 is Ok,
        outcome is Returned ==> r == outcome->Returned_0,
        outcome is Panicked ==> r->Err_0@ == "MCAP writer thread panicked"@,
        outcome is WaitFailed ==> r->Err_0@ == "MCAP writer join task failed"@,
{
}

/// The first message on a topic is queued with the topic's descriptor, if there is one, and the
/// topic is known from then on; a descriptor of another topic is refused, and nothing changes.
pub proof fn lemma_topics_become_known<P>(
    writer: &mut McapWriter,
    topic: &str,
    log_time: u64,
    publish_time: u64,
    payload: P,
    descriptor: Option<ChannelDescriptor>,
    r: Result<Option<WriterCommand<P>>, WriteError>,
    other: Seq<char>,
)
    requires
        call_ensures(
            McapWriter::write_on_new_topic::<P>,
            (writer, topic, log_time, publish_time, payload, descriptor),
            r,
        ),
        !old(writer)@.contains(topic@),
    ensures
        final(writer)@.contains(topic@) <==> descriptor is Some && descriptor->Some_0.topic@
            == topic@,
        other != topic@ ==> (final(writer)@.contains(other) <==> old(writer)@.contains(other)),
        r is Err <==> descriptor is Some && descriptor->Some_0.topic@ != topic@,
        r is Ok ==> (r->Ok_0 is Some <==> descriptor is Some),
        r is Ok && r->Ok_0 is Some ==> {
            let command = r->Ok_0->Some_0;
            &&& command is Write
            &&& command->Write_0.topic@ == topic@
            &&& command->Write_0.log_time == log_time
            &&& command->Write_0.publish_time == publish_time
            &&& command->Write_0.payload == payload
            &&& command->Write_1 == descriptor
        },
{
    lemma_first_message(
        old(writer)@,
        topic@,
        log_time,
        publish_time,
        payload,
        descriptor,
        final(writer)@,
        r,
        other,
    );
}

/// A message on a known topic is always queued, with no descriptor.
pub proof fn lemma_known_topics_are_queued<P, F>(
    writer: &mut McapWriter,
    topic: &str,
    log_time: u64,
    publish_time: u64,
    payload: P,
    new_channel: F,
    r: Result<Option<WriterCommand<P>>, WriteError>,
) where F: FnOnce() -> Option<ChannelDescriptor>
    requires
        call_ensures(
            McapWriter::write_message::<P, F>,
            (writer, topic, log_time, publish_time, payload, new_channel),
            r,
        ),
        old(writer)@.contains(topic@),
    ensures
        r is Ok && r->Ok_0 is Some,
        r->Ok_0->Some_0 is Write,
        r->Ok_0->Some_0->Write_0.topic@ == topic@,
        r->Ok_0->Some_0->Write_0.log_time == log_time,
        r->Ok_0->Some_0->Write_0.publish_time == publish_time,
        r->Ok_0->Some_0->Write_0.payload == payload,
        r->Ok_0->Some_0->Write_1 is None,
        final(writer)@ == old(writer)@,
{
}

/// At first no topic is known; a topic is known if it is among the known ones.
pub proof fn lemma_known_topics(writer: McapWriter, known: &McapWriter, topic: &str, r: bool)
    requires
        call_ensures(McapWriter::new, (), writer),
        call_ensures(McapWriter::is_known, (known, topic), r),
    ensures
        !writer@.contains(topic@),
        r <==> known@.contains(topic@),
{
}

} // verus!
