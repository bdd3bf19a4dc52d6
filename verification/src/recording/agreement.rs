//! How the queue and the writer agree on which topics have a channel.
use vstd::prelude::*;

use crate::channel_descriptor::ChannelDescriptor;
use crate::recording::queue::{RecordPayload, WriteError, WriterCommand};
use crate::recording::writer::{ActionModel, Channel, Event, MessageHeader, Pending};

verus! {

/// The topics with a channel after a command is done.
pub open spec fn topics_after_one<P>(
    registered: Set<Seq<char>>,
    command: WriterCommand<P>,
) -> Set<Seq<char>> {
    match command {
        WriterCommand::Write(_, Some(descriptor)) => registered.insert(descriptor.topic@),
        _ => registered,
    }
}

/// The topics with a channel after the commands of a queue, the first one first.
pub open spec fn topics_after<P>(
    registered: Set<Seq<char>>,
    queue: Seq<WriterCommand<P>>,
) -> Set<Seq<char>>
    decreases queue.len(),
{
    if queue.len() == 0 {
        registered
    } else {
        topics_after(topics_after_one(registered, queue[0]), queue.skip(1))
    }
}

/// A command suits the registered topics: a message with a descriptor is on a topic that is not
/// registered and that the descriptor is for, any other message is on one that is.
pub open spec fn suits<P>(registered: Set<Seq<char>>, command: WriterCommand<P>) -> bool {
    match command {
        WriterCommand::Write(message, Some(descriptor)) => {
            &&& descriptor.topic@ == message.topic@
            &&& !registered.contains(message.topic@)
        },
        WriterCommand::Write(message, None) => registered.contains(message.topic@),
        _ => true,
    }
}

/// Every command of a queue suits the topics that are registered when it comes up.
pub open spec fn all_suit<P>(registered: Set<Seq<char>>, queue: Seq<WriterCommand<P>>) -> bool
    decreases queue.len(),
{
    queue.len() > 0 ==> {
        &&& suits(registered, queue[0])
        &&& all_suit(topics_after_one(registered, queue[0]), queue.skip(1))
    }
}

/// The queue's side and the writer's side are in step: every queued command suits, and the known
/// topics are those that will be registered once the queue is worked off.
pub open spec fn in_step<P>(
    known: Set<Seq<char>>,
    registered: Set<Seq<char>>,
    queue: Seq<WriterCommand<P>>,
) -> bool {
    &&& all_suit(registered, queue)
    &&& topics_after(registered, queue) == known
}

proof fn lemma_push<P>(
    registered: Set<Seq<char>>,
    queue: Seq<WriterCommand<P>>,
    command: WriterCommand<P>,
)
    requires
        all_suit(registered, queue),
        suits(topics_after(registered, queue), command),
    ensures
        all_suit(registered, queue.push(command)),
        topics_after(registered, queue.push(command)) == topics_after_one(
            topics_after(registered, queue),
            command,
        ),
    decreases queue.len(),
{
    let longer = queue.push(command);
    if queue.len() == 0 {
        assert(longer.skip(1) =~= Seq::<WriterCommand<P>>::empty());
        assert(all_suit(topics_after_one(registered, command), longer.skip(1)));
        assert(topics_after(topics_after_one(registered, command), longer.skip(1))
            == topics_after_one(registered, command));
    } else {
        let next = topics_after_one(registered, queue[0]);
        lemma_push(next, queue.skip(1), command);
        assert(longer.skip(1) =~= queue.skip(1).push(command));
    }
}

/// At the start, with no topic known, no channel registered and nothing queued, the two sides are
/// in step.
pub proof fn lemma_start_in_step<P>()
    ensures
        in_step(
            Set::<Seq<char>>::empty(),
            Set::<Seq<char>>::empty(),
            Seq::<WriterCommand<P>>::empty(),
        ),
{
}

/// A message on a known topic, queued without a descriptor, keeps the two sides in step.
pub proof fn lemma_known_topic_keeps_step<P>(
    known: Set<Seq<char>>,
    registered: Set<Seq<char>>,
    queue: Seq<WriterCommand<P>>,
    command: WriterCommand<P>,
    topic: Seq<char>,
    log_time: u64,
    publish_time: u64,
    payload: P,
)
    requires
        in_step(known, registered, queue),
        known.contains(topic),
        crate::recording::queue::writes(command, topic, log_time, publish_time, payload, None),
    ensures
        in_step(known, registered, queue.push(command)),
{
    lemma_push(registered, queue, command);
}

/// Whatever comes of a message on a topic that is not known, the two sides stay in step once the
/// command, if there is one, is queued.
pub proof fn lemma_new_topic_keeps_step<P>(
    known: Set<Seq<char>>,
    registered: Set<Seq<char>>,
    queue: Seq<WriterCommand<P>>,
    topic: Seq<char>,
    log_time: u64,
    publish_time: u64,
    payload: P,
    descriptor: Option<ChannelDescriptor>,
    known_after: Set<Seq<char>>,
    r: Result<Option<WriterCommand<P>>, WriteError>,
)
    requires
        in_step(known, registered, queue),
        !known.contains(topic),
        crate::recording::queue::new_topic_outcome(
            known,
            topic,
            log_time,
            publish_time,
            payload,
            descriptor,
            known_after,
            r,
        ),
    ensures
        in_step(
            known_after,
            registered,
            match r {
                Ok(Some(command)) => queue.push(command),
                _ => queue,
            },
        ),
{
    match r {
        Ok(Some(command)) => {
            lemma_push(registered, queue, command);
        },
        _ => {},
    }
}

/// Flushes and the end of the file keep the two sides in step.
pub proof fn lemma_flush_keeps_step<P>(
    known: Set<Seq<char>>,
    registered: Set<Seq<char>>,
    queue: Seq<WriterCommand<P>>,
    command: WriterCommand<P>,
)
    requires
        in_step(known, registered, queue),
        command is Flush || command is Finish,
    ensures
        in_step(known, registered, queue.push(command)),
{
    lemma_push(registered, queue, command);
}

/// The writer refuses no command of a queue that is in step: a message that comes first finds its
/// channel, at once or after the file has given ids for it, and the rest of the queue is then in
/// step again.
pub proof fn lemma_writer_keeps_step<P: RecordPayload>(
    known: Set<Seq<char>>,
    channels: Map<Seq<char>, Channel>,
    queue: Seq<WriterCommand<P>>,
    schema_id: u16,
    channel_id: u16,
)
    requires
        in_step(known, channels.dom(), queue),
        queue.len() > 0,
    ensures
        ({
            let begun = crate::recording::writer::command_step(channels, queue[0]);
            let schema = Event::Schema(Some(schema_id));
            let ready = if begun.0 is Schema {
                crate::recording::writer::event_step(channels, begun.0, schema)
            } else {
                begun
            };
            let added = Event::Channel(Some(channel_id));
            let writing = if ready.0 is Channel {
                crate::recording::writer::event_step(channels, ready.0, added)
            } else {
                ready
            };
            let after = if ready.0 is Channel {
                crate::recording::writer::channels_after(channels, ready.0, added)
            } else {
                channels
            };
            &&& queue[0] is Write ==> writing.1 is WriteMessage
            &&& queue[0] is Flush ==> writing.1 is Flush
            &&& queue[0] is Finish ==> writing.1 is Finish
            &&& in_step(known, after.dom(), queue.skip(1))
        }),
{
    let added = Event::Channel(Some(channel_id));
    match queue[0] {
        WriterCommand::Write(message, Some(descriptor)) => {
            let begun = crate::recording::writer::command_step(channels, queue[0]);
            let ready = if begun.0 is Schema {
                crate::recording::writer::event_step(
                    channels,
                    begun.0,
                    Event::Schema(Some(schema_id)),
                )
            } else {
                begun
            };
            let after = crate::recording::writer::channels_after(channels, ready.0, added);
            assert(after.dom() =~= channels.dom().insert(descriptor.topic@));
        },
        _ => {},
    }
}

/// What the file answers in the course of one command: the ids that it gives, and whether the
/// message could be written.
pub struct Answers {
    pub schema_id: u16,
    pub channel_id: u16,
    pub written: bool,
}

/// How far a command comes before its topic's channel is added.
pub open spec fn before_channel<P: RecordPayload>(
    channels: Map<Seq<char>, Channel>,
    command: WriterCommand<P>,
    answers: Answers,
) -> (Pending<P>, ActionModel) {
    let begun = crate::recording::writer::command_step(channels, command);
    if begun.0 is Schema {
        crate::recording::writer::event_step(
            channels,
            begun.0,
            Event::Schema(Some(answers.schema_id)),
        )
    } else {
        begun
    }
}

/// The channels once a command's topic is registered.
pub open spec fn channels_for<P: RecordPayload>(
    channels: Map<Seq<char>, Channel>,
    command: WriterCommand<P>,
    answers: Answers,
) -> Map<Seq<char>, Channel> {
    let ready = before_channel(channels, command, answers);
    if ready.0 is Channel {
        crate::recording::writer::channels_after(
            channels,
            ready.0,
            Event::Channel(Some(answers.channel_id)),
        )
    } else {
        channels
    }
}

/// The last thing that is done with the file for a command.
pub open spec fn main_step<P: RecordPayload>(
    channels: Map<Seq<char>, Channel>,
    command: WriterCommand<P>,
    answers: Answers,
) -> (Pending<P>, ActionModel) {
    let ready = before_channel(channels, command, answers);
    if ready.0 is Channel {
        crate::recording::writer::event_step(
            channels,
            ready.0,
            Event::Channel(Some(answers.channel_id)),
        )
    } else {
        ready
    }
}

/// The channels after a command.
pub open spec fn channels_after_command<P: RecordPayload>(
    channels: Map<Seq<char>, Channel>,
    command: WriterCommand<P>,
    answers: Answers,
) -> Map<Seq<char>, Channel> {
    let step = main_step(channels, command, answers);
    if step.0 is Message {
        crate::recording::writer::channels_after(
            channels_for(channels, command, answers),
            step.0,
            Event::Written(answers.written),
        )
    } else {
        channels_for(channels, command, answers)
    }
}

/// The channels of a new writer after the first `n` commands.
pub open spec fn channels_at<P: RecordPayload>(
    commands: Seq<WriterCommand<P>>,
    answers: Seq<Answers>,
    n: nat,
) -> Map<Seq<char>, Channel>
    decreases n,
{
    if n == 0 {
        Map::empty()
    } else {
        channels_after_command(
            channels_at(commands, answers, (n - 1) as nat),
            commands[n - 1],
            answers[n - 1],
        )
    }
}

/// The command writes a message on the topic.
pub open spec fn is_on<P>(command: WriterCommand<P>, topic: Seq<char>) -> bool {
    command matches WriterCommand::Write(message, _) && message.topic@ == topic
}

/// One of the first `n` commands writes a message on the topic.
pub open spec fn occurs<P>(commands: Seq<WriterCommand<P>>, topic: Seq<char>, n: nat) -> bool
    decreases n,
{
    n > 0 && (is_on(commands[n - 1], topic) || occurs(commands, topic, (n - 1) as nat))
}

/// How many messages on the topic were written successfully by the first `n` commands.
pub open spec fn written_on<P>(
    commands: Seq<WriterCommand<P>>,
    answers: Seq<Answers>,
    topic: Seq<char>,
    n: nat,
) -> nat
    decreases n,
{
    if n == 0 {
        0
    } else {
        written_on(commands, answers, topic, (n - 1) as nat) + (if is_on(commands[n - 1], topic)
            && answers[n - 1].written {
            1nat
        } else {
            0nat
        })
    }
}

/// The id that the file gave to the topic's channel when its first message came up among the
/// first `n` commands.
pub open spec fn channel_id_on<P>(
    commands: Seq<WriterCommand<P>>,
    answers: Seq<Answers>,
    topic: Seq<char>,
    n: nat,
) -> u16
    decreases n,
{
    if n == 0 {
        0
    } else if occurs(commands, topic, (n - 1) as nat) {
        channel_id_on(commands, answers, topic, (n - 1) as nat)
    } else {
        answers[n - 1].channel_id
    }
}

/// The first message on each topic comes with a descriptor for that topic, the others come with
/// none, and the end of the file comes last.
pub open spec fn in_order<P>(commands: Seq<WriterCommand<P>>) -> bool {
    &&& forall|k: int|
        0 <= k < commands.len() ==> match #[trigger] commands[k] {
            WriterCommand::Write(message, Some(descriptor)) => {
                &&& descriptor.topic@ == message.topic@
                &&& !occurs(commands, message.topic@, k as nat)
            },
            WriterCommand::Write(message, None) => occurs(commands, message.topic@, k as nat),
            WriterCommand::Flush => true,
            WriterCommand::Finish => k == commands.len() - 1,
        }
}

proof fn lemma_written_on<P>(
    commands: Seq<WriterCommand<P>>,
    answers: Seq<Answers>,
    topic: Seq<char>,
    n: nat,
)
    ensures
        written_on(commands, answers, topic, n) <= n,
        !occurs(commands, topic, n) ==> written_on(commands, answers, topic, n) == 0,
    decreases n,
{
    if n > 0 {
        lemma_written_on(commands, answers, topic, (n - 1) as nat);
    }
}

/// After any number of commands exactly the topics that occurred have a channel, with the id that
/// the file gave it and with the number of its messages that were written.
proof fn lemma_channels_at<P: RecordPayload>(
    commands: Seq<WriterCommand<P>>,
    answers: Seq<Answers>,
    n: nat,
)
    requires
        in_order(commands),
        answers.len() == commands.len(),
        n <= commands.len() <= u32::MAX,
    ensures
        forall|topic: Seq<char>| #[trigger]
            channels_at(commands, answers, n).contains_key(topic) <==> occurs(commands, topic, n),
        forall|topic: Seq<char>|
            occurs(commands, topic, n) ==> #[trigger] channels_at(commands, answers, n)[topic] == (
            Channel {
                channel_id: channel_id_on(commands, answers, topic, n),
                sequence: written_on(commands, answers, topic, n) as u32,
            }),
    decreases n,
{
    if n > 0 {
        let k = (n - 1) as nat;
        lemma_channels_at(commands, answers, k);
        let before = channels_at(commands, answers, k);
        let after = channels_at(commands, answers, n);
        let command = commands[k as int];
        assert forall|topic: Seq<char>| #[trigger] written_on(commands, answers, topic, k) <= k && (
        !occurs(commands, topic, k) ==> written_on(commands, answers, topic, k) == 0) by {
            lemma_written_on(commands, answers, topic, k);
        }
        match command {
            WriterCommand::Write(message, descriptor) => {
                let with_channel = channels_for(before, command, answers[k as int]);
                let step = main_step(before, command, answers[k as int]);
                assert(step.0 == Pending::<P>::Message { topic: message.topic });
                let sequence = written_on(commands, answers, message.topic@, k) as u32;
                assert(with_channel[message.topic@].sequence == sequence);
                assert(with_channel[message.topic@].channel_id == channel_id_on(
                    commands,
                    answers,
                    message.topic@,
                    n,
                ));
            },
            _ => {
                assert(after == before);
            },
        }
    }
}

/// Over a whole list of commands for a new writer, each message leads to one write with its own
/// times and bytes on its topic's channel. Its number is how many messages on its topic were
/// written before it: a write that fails uses up no number and ends nothing, and topics are
/// numbered apart. Flushes and the end of the file are what they are.
pub proof fn lemma_commands_become_records<P: RecordPayload>(
    commands: Seq<WriterCommand<P>>,
    answers: Seq<Answers>,
    k: int,
)
    requires
        in_order(commands),
        answers.len() == commands.len(),
        commands.len() <= u32::MAX,
        0 <= k < commands.len(),
    ensures
        ({
            let channels = channels_at(commands, answers, k as nat);
            let step = main_step(channels, commands[k], answers[k]);
            match commands[k] {
                WriterCommand::Write(message, _) => {
                    &&& written_on(commands, answers, message.topic@, k as nat) <= k
                    &&& step.1 == (ActionModel::WriteMessage {
                        header: MessageHeader {
                            channel_id: channel_id_on(
                                commands,
                                answers,
                                message.topic@,
                                (k + 1) as nat,
                            ),
                            sequence: written_on(commands, answers, message.topic@, k as nat) as u32,
                            log_time: message.log_time,
                            publish_time: message.publish_time,
                        },
                        data: message.payload.content(),
                    })
                    &&& crate::recording::writer::fits(
                        channels_for(channels, commands[k], answers[k]),
                        step.0,
                        Event::Written(answers[k].written),
                    )
                    &&& crate::recording::writer::event_step(
                        channels_for(channels, commands[k], answers[k]),
                        step.0,
                        Event::Written(answers[k].written),
                    ).1 == ActionModel::Next
                },
                WriterCommand::Flush => step.1 == ActionModel::Flush,
                WriterCommand::Finish => step.1 == ActionModel::Finish,
            }
        }),
{
    lemma_channels_at(commands, answers, k as nat);
    let channels = channels_at(commands, answers, k as nat);
    match commands[k] {
        WriterCommand::Write(message, _) => {
            assert(channels.contains_key(message.topic@) <==> occurs(
                commands,
                message.topic@,
                k as nat,
            ));
            lemma_written_on(commands, answers, message.topic@, k as nat);
        },
        _ => {},
    }
}

proof fn lemma_topics_push<P>(
    registered: Set<Seq<char>>,
    queue: Seq<WriterCommand<P>>,
    command: WriterCommand<P>,
)
    ensures
        topics_after(registered, queue.push(command)) == topics_after_one(
            topics_after(registered, queue),
            command,
        ),
    decreases queue.len(),
{
    let longer = queue.push(command);
    if queue.len() == 0 {
        assert(longer.skip(1) =~= Seq::<WriterCommand<P>>::empty());
        assert(topics_after(topics_after_one(registered, command), longer.skip(1))
            == topics_after_one(registered, command));
    } else {
        lemma_topics_push(topics_after_one(registered, queue[0]), queue.skip(1), command);
        assert(longer.skip(1) =~= queue.skip(1).push(command));
    }
}

proof fn lemma_suits_at<P>(registered: Set<Seq<char>>, queue: Seq<WriterCommand<P>>, k: int)
    requires
        all_suit(registered, queue),
        0 <= k < queue.len(),
    ensures
        suits(topics_after(registered, queue.take(k)), queue[k]),
    decreases k,
{
    if k == 0 {
        assert(queue.take(0) =~= Seq::<WriterCommand<P>>::empty());
    } else {
        lemma_suits_at(topics_after_one(registered, queue[0]), queue.skip(1), k - 1);
        assert(queue.take(k).skip(1) =~= queue.skip(1).take(k - 1));
        assert(queue.take(k)[0] == queue[0]);
    }
}

proof fn lemma_topics_occur<P>(queue: Seq<WriterCommand<P>>, n: nat, topic: Seq<char>)
    requires
        all_suit(Set::<Seq<char>>::empty(), queue),
        n <= queue.len(),
    ensures
        topics_after(Set::<Seq<char>>::empty(), queue.take(n as int)).contains(topic) <==> occurs(
            queue,
            topic,
            n,
        ),
    decreases n,
{
    if n == 0 {
        assert(queue.take(0) =~= Seq::<WriterCommand<P>>::empty());
    } else {
        let k = n - 1;
        lemma_topics_occur(queue, k as nat, topic);
        lemma_suits_at(Set::<Seq<char>>::empty(), queue, k);
        lemma_topics_push(Set::<Seq<char>>::empty(), queue.take(k), queue[k]);
        assert(queue.take(n as int) =~= queue.take(k).push(queue[k]));
    }
}

/// What is queued from the start on is in order: commands that keep the queue and the writer in
/// step bring a descriptor with the first message on each topic and with no other.
pub proof fn lemma_queued_commands_are_in_order<P>(
    known: Set<Seq<char>>,
    queue: Seq<WriterCommand<P>>,
)
    requires
        in_step(known, Set::<Seq<char>>::empty(), queue),
        forall|k: int| 0 <= k < queue.len() - 1 ==> !((#[trigger] queue[k]) is Finish),
    ensures
        in_order(queue),
{
    assert forall|k: int| 0 <= k < queue.len() implies match #[trigger] queue[k] {
        WriterCommand::Write(message, Some(descriptor)) => {
            &&& descriptor.topic@ == message.topic@
            &&& !occurs(queue, message.topic@, k as nat)
        },
        WriterCommand::Write(message, None) => occurs(queue, message.topic@, k as nat),
        WriterCommand::Flush => true,
        WriterCommand::Finish => k == queue.len() - 1,
    } by {
        lemma_suits_at(Set::<Seq<char>>::empty(), queue, k);
        match queue[k] {
            WriterCommand::Write(message, _) => {
                lemma_topics_occur(queue, k as nat, message.topic@);
            },
            _ => {},
        }
    }
}

} // verus!
