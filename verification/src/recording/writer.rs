//! The writer's side of the queue: which records a command becomes, and in which order.
use vstd::prelude::*;

use crate::channel_descriptor::{
    ChannelDescriptor, MessageEncoding, SchemaDescriptor, SchemaEncoding,
};
use crate::recording::queue::{QueuedMessage, RecordPayload, WriterCommand};
use crate::text::join_texts;
use crate::text_map::TextMap;

verus! {

/// The schema id of a channel without a schema.
pub const NO_SCHEMA_ID: u16 = 0;

/// A topic's channel in the file, and the number of its next message.
#[derive(Debug, Clone, Copy, PartialEq, Eq, Structural)]
pub struct Channel {
    pub channel_id: u16,
    pub sequence: u32,
}

impl Channel {
    /// A channel without messages.
    pub fn new(channel_id: u16) -> (r: Self)
        ensures
            r == (Channel { channel_id, sequence: 0 }),
    {
        Channel { channel_id, sequence: 0 }
    }
}

/// The header of a message record.
#[derive(Debug, Clone, Copy, PartialEq, Eq, Structural)]
pub struct MessageHeader {
    pub channel_id: u16,
    pub sequence: u32,
    pub log_time: u64,
    pub publish_time: u64,
}

/// Why the writer gives up.
#[derive(Debug)]
pub enum WriterError {
    AlreadyRegistered,
    SchemaRefused,
    ChannelRefused,
    NotRegistered(String),
    FinishFailed,
}

impl WriterError {
    /// The error in words.
    pub fn message(&self) -> (r: String)
        ensures
            r@ == match *self {
                WriterError::AlreadyRegistered => "Channel already registered"@,
                WriterError::SchemaRefused => "Failed to add MCAP schema"@,
                WriterError::ChannelRefused => "Failed to add MCAP channel"@,
                WriterError::NotRegistered(topic) => "Channel not registered for topic "@ + topic@,
                WriterError::FinishFailed => "Failed to finish MCAP writer"@,
            },
    {
        match self {
            WriterError::AlreadyRegistered => "Channel already registered".to_owned(),
            WriterError::SchemaRefused => "Failed to add MCAP schema".to_owned(),
            WriterError::ChannelRefused => "Failed to add MCAP channel".to_owned(),
            WriterError::NotRegistered(topic) => join_texts(
                "Channel not registered for topic ",
                topic.as_str(),
            ),
            WriterError::FinishFailed => "Failed to finish MCAP writer".to_owned(),
        }
    }
}

/// What is to be done with the file next.
#[derive(Debug)]
pub enum Action {
    AddSchema { name: String, encoding: &'static str, text: String },
    AddChannel { schema_id: u16, topic: String, message_encoding: &'static str },
    WriteMessage { header: MessageHeader, data: Vec<u8> },
    Flush,
    Finish,
    /// The command is done; the next one may come.
    Next,
    /// The writer ends.
    Stop(Result<(), WriterError>),
}

/// An action, with its texts and bytes as sequences.
pub enum ActionModel {
    AddSchema { name: Seq<char>, encoding: Seq<char>, text: Seq<char> },
    AddChannel { schema_id: u16, topic: Seq<char>, message_encoding: Seq<char> },
    WriteMessage { header: MessageHeader, data: Seq<u8> },
    Flush,
    Finish,
    Next,
    Done,
    AlreadyRegistered,
    SchemaRefused,
    ChannelRefused,
    NotRegistered { topic: Seq<char> },
    FinishFailed,
}

impl View for Action {
    type V = ActionModel;

    open spec fn view(&self) -> ActionModel {
        match *self {
            Action::AddSchema { name, encoding, text } => ActionModel::AddSchema {
                name: name@,
                encoding: encoding@,
                text: text@,
            },
            Action::AddChannel { schema_id, topic, message_encoding } => ActionModel::AddChannel {
                schema_id,
                topic: topic@,
                message_encoding: message_encoding@,
            },
            Action::WriteMessage { header, data } => ActionModel::WriteMessage {
                header,
                data: data@,
            },
            Action::Flush => ActionModel::Flush,
            Action::Finish => ActionModel::Finish,
            Action::Next => ActionModel::Next,
            Action::Stop(Ok(())) => ActionModel::Done,
            Action::Stop(Err(WriterError::AlreadyRegistered)) => ActionModel::AlreadyRegistered,
            Action::Stop(Err(WriterError::SchemaRefused)) => ActionModel::SchemaRefused,
            Action::Stop(Err(WriterError::ChannelRefused)) => ActionModel::ChannelRefused,
            Action::Stop(Err(WriterError::NotRegistered(topic))) => ActionModel::NotRegistered {
                topic: topic@,
            },
            Action::Stop(Err(WriterError::FinishFailed)) => ActionModel::FinishFailed,
        }
    }
}

/// What came of an action. An id comes back if a schema or a channel was added.
#[derive(Debug, Clone, Copy, PartialEq, Eq, Structural)]
pub enum Event {
    Schema(Option<u16>),
    Channel(Option<u16>),
    Written(bool),
    Flushed(bool),
    Finished(bool),
}

/// What the writer waits for.
#[derive(Debug)]
pub enum Pending<P> {
    /// The next command.
    Command,
    /// The id of a schema, for the channel of this topic and for this message.
    Schema { topic: String, message_encoding: MessageEncoding, message: QueuedMessage<P> },
    /// The id of this topic's channel, for this message.
    Channel { topic: String, message: QueuedMessage<P> },
    /// The end of writing a message on this topic.
    Message { topic: String },
    Flush,
    Finish,
    /// Nothing: the writer has ended.
    Nothing,
}

/// The writer: the channels that are registered, and what it waits for.
#[derive(Debug)]
pub struct WriterLoop<P> {
    pub channels: TextMap<Channel>,
    pub pending: Pending<P>,
}

/// The topic of the message that is being written, if there is one, is registered.
pub open spec fn is_registered<P>(
    channels: Map<Seq<char>, Channel>,
    pending: Pending<P>,
) -> bool {
    pending matches Pending::Message { topic } ==> channels.contains_key(topic@)
}

/// How a message is written, given the channels.
pub open spec fn write_step<P: RecordPayload>(
    channels: Map<Seq<char>, Channel>,
    message: QueuedMessage<P>,
) -> (Pending<P>, ActionModel) {
    if channels.contains_key(message.topic@) {
        let channel = channels[message.topic@];
        (
            Pending::Message { topic: message.topic },
            ActionModel::WriteMessage {
                header: MessageHeader {
                    channel_id: channel.channel_id,
                    sequence: channel.sequence,
                    log_time: message.log_time,
                    publish_time: message.publish_time,
                },
                data: message.payload.content(),
            },
        )
    } else {
        (Pending::Nothing, ActionModel::NotRegistered { topic: message.topic@ })
    }
}

/// How a channel is added once its schema's id is known.
pub open spec fn channel_step<P>(
    schema_id: u16,
    topic: String,
    message_encoding: MessageEncoding,
    message: QueuedMessage<P>,
) -> (Pending<P>, ActionModel) {
    (
        Pending::Channel { topic, message },
        ActionModel::AddChannel {
            schema_id,
            topic: topic@,
            message_encoding: message_encoding.name(),
        },
    )
}

/// How a topic is registered: its schema first, if it has one with content, then its channel.
pub open spec fn register_step<P>(
    channels: Map<Seq<char>, Channel>,
    descriptor: ChannelDescriptor,
    message: QueuedMessage<P>,
) -> (Pending<P>, ActionModel) {
    if channels.contains_key(descriptor.topic@) {
        (Pending::Nothing, ActionModel::AlreadyRegistered)
    } else {
        match descriptor.schema {
            Some(SchemaDescriptor { encoding, content: Some(content) }) => (
                Pending::Schema {
                    topic: descriptor.topic,
                    message_encoding: descriptor.message_encoding,
                    message,
                },
                ActionModel::AddSchema {
                    name: content.name@,
                    encoding: encoding.name(),
                    text: content.data@,
                },
            ),
            _ => channel_step(
                NO_SCHEMA_ID,
                descriptor.topic,
                descriptor.message_encoding,
                message,
            ),
        }
    }
}

/// How a command is begun.
pub open spec fn command_step<P: RecordPayload>(
    channels: Map<Seq<char>, Channel>,
    command: WriterCommand<P>,
) -> (Pending<P>, ActionModel) {
    match command {
        WriterCommand::Write(message, Some(descriptor)) => register_step(
            channels,
            descriptor,
            message,
        ),
        WriterCommand::Write(message, None) => write_step(channels, message),
        WriterCommand::Flush => (Pending::Flush, ActionModel::Flush),
        WriterCommand::Finish => (Pending::Finish, ActionModel::Finish),
    }
}

/// The event is one that the writer waits for. A message can only have been written on a
/// channel whose numbers are not used up.
pub open spec fn fits<P>(
    channels: Map<Seq<char>, Channel>,
    pending: Pending<P>,
    event: Event,
) -> bool {
    match (pending, event) {
        (Pending::Schema { .. }, Event::Schema(_)) => true,
        (Pending::Channel { .. }, Event::Channel(_)) => true,
        (Pending::Message { topic }, Event::Written(written)) => written
            ==> channels[topic@].sequence < u32::MAX,
        (Pending::Flush, Event::Flushed(_)) => true,
        (Pending::Finish, Event::Finished(_)) => true,
        _ => false,
    }
}

/// The channels after an event.
pub open spec fn channels_after<P>(
    channels: Map<Seq<char>, Channel>,
    pending: Pending<P>,
    event: Event,
) -> Map<Seq<char>, Channel> {
    match (pending, event) {
        (Pending::Channel { topic, .. }, Event::Channel(Some(channel_id))) => channels.insert(
            topic@,
            Channel { channel_id, sequence: 0 },
        ),
        (Pending::Message { topic }, Event::Written(true)) => channels.insert(
            topic@,
            Channel {
                channel_id: channels[topic@].channel_id,
                sequence: (channels[topic@].sequence + 1) as u32,
            },
        ),
        _ => channels,
    }
}

/// How the writer goes on after an event.
pub open spec fn event_step<P: RecordPayload>(
    channels: Map<Seq<char>, Channel>,
    pending: Pending<P>,
    event: Event,
) -> (Pending<P>, ActionModel) {
    match (pending, event) {
        (Pending::Schema { topic, message_encoding, message }, Event::Schema(Some(id))) =>
            channel_step(id, topic, message_encoding, message),
        (Pending::Schema { .. }, _) => (Pending::Nothing, ActionModel::SchemaRefused),
        (Pending::Channel { message, .. }, Event::Channel(Some(_))) => write_step(
            channels_after(channels, pending, event),
            message,
        ),
        (Pending::Channel { .. }, _) => (Pending::Nothing, ActionModel::ChannelRefused),
        (Pending::Finish, Event::Finished(true)) => (Pending::Nothing, ActionModel::Done),
        (Pending::Finish, _) => (Pending::Nothing, ActionModel::FinishFailed),
        _ => (Pending::Command, ActionModel::Next),
    }
}

impl<P: RecordPayload> WriterLoop<P> {
    /// The channels are in order, and a message is written only on a registered topic.
    pub open spec fn wf(&self) -> bool {
        &&& self.channels.wf()
        &&& is_registered(self.channels@, self.pending)
    }

    /// No channel is registered; the first command may come.
    pub fn new() -> (r: Self)
        ensures
            r.wf(),
            r.channels@ == Map::<Seq<char>, Channel>::empty(),
            r.pending is Command,
    {
        WriterLoop { channels: TextMap::new(), pending: Pending::Command }
    }

    /// Begins a command.
    pub fn accept(&mut self, command: WriterCommand<P>) -> (r: Action)
        requires
            old(self).wf(),
            old(self).pending is Command,
        ensures
            final(self).wf(),
            final(self).channels@ == old(self).channels@,
            (final(self).pending, r@) == command_step(old(self).channels@, command),
    {
        match command {
            WriterCommand::Write(message, new_channel) => match new_channel {
                Some(descriptor) => self.register_channel(descriptor, message),
                None => self.write(message),
            },
            WriterCommand::Flush => {
                self.pending = Pending::Flush;
                Action::Flush
            },
            WriterCommand::Finish => {
                self.pending = Pending::Finish;
                Action::Finish
            },
        }
    }

    /// Goes on with what came of the last action.
    pub fn step(&mut self, event: Event) -> (r: Action)
        requires
            old(self).wf(),
            fits(old(self).channels@, old(self).pending, event),
        ensures
            final(self).wf(),
            final(self).channels@ == channels_after(
                old(self).channels@,
                old(self).pending,
                event,
            ),
            (final(self).pending, r@) == event_step(
                old(self).channels@,
                old(self).pending,
                event,
            ),
    {
        let mut pending: Pending<P> = Pending::Nothing;
        std::mem::swap(&mut pending, &mut self.pending);
        match pending {
            Pending::Schema { topic, message_encoding, message } => match event {
                Event::Schema(Some(id)) => self.add_channel(id, topic, message_encoding, message),
                _ => Action::Stop(Err(WriterError::SchemaRefused)),
            },
            Pending::Channel { topic, message } => match event {
                Event::Channel(Some(channel_id)) => {
                    self.channels.insert(topic, Channel::new(channel_id));
                    self.write(message)
                },
                _ => Action::Stop(Err(WriterError::ChannelRefused)),
            },
            Pending::Message { topic } => {
                match event {
                    Event::Written(true) => {
                        match self.channels.get(topic.as_str()) {
                            Some(channel) => {
                                let next = Channel {
                                    channel_id: channel.channel_id,
                                    sequence: channel.sequence + 1,
                                };
                                self.channels.insert(topic, next);
                            },
                            None => {},
                        }
                    },
                    _ => {},
                }
                self.pending = Pending::Command;
                Action::Next
            },
            Pending::Finish => match event {
                Event::Finished(true) => Action::Stop(Ok(())),
                _ => Action::Stop(Err(WriterError::FinishFailed)),
            },
            _ => {
                self.pending = Pending::Command;
                Action::Next
            },
        }
    }

    /// Whether the channel of the message that is being written has a number left for it.
    pub fn has_number_left(&self) -> (r: bool)
        requires
            self.wf(),
        ensures
            r == fits(self.channels@, self.pending, Event::Written(true)),
    {
        match &self.pending {
            Pending::Message { topic } => match self.channels.get(topic.as_str()) {
                Some(channel) => channel.sequence < u32::MAX,
                None => false,
            },
            _ => false,
        }
    }

    /// Registers a topic before its first message.
    fn register_channel(&mut self, descriptor: ChannelDescriptor, message: QueuedMessage<P>) -> (r:
        Action)
        requires
            old(self).wf(),
        ensures
            final(self).channels == old(self).channels,
            (final(self).pending, r@) == register_step(
                old(self).channels@,
                descriptor,
                message,
            ),
    {
        if self.channels.contains_key(descriptor.topic.as_str()) {
            self.pending = Pending::Nothing;
            return Action::Stop(Err(WriterError::AlreadyRegistered));
        }
        match descriptor.schema {
            Some(SchemaDescriptor { encoding, content: Some(content) }) => {
                self.pending = Pending::Schema {
                    topic: descriptor.topic,
                    message_encoding: descriptor.message_encoding,
                    message,
                };
                Action::AddSchema {
                    name: content.name,
                    encoding: encoding.as_str(),
                    text: content.data,
                }
            },
            _ => self.add_channel(
                NO_SCHEMA_ID,
                descriptor.topic,
                descriptor.message_encoding,
                message,
            ),
        }
    }

    /// Adds a topic's channel.
    fn add_channel(
        &mut self,
        schema_id: u16,
        topic: String,
        message_encoding: MessageEncoding,
        message: QueuedMessage<P>,
    ) -> (r: Action)
        ensures
            final(self).channels == old(self).channels,
            (final(self).pending, r@) == channel_step(schema_id, topic, message_encoding, message),
    {
        let named = topic.clone();
        self.pending = Pending::Channel { topic, message };
        Action::AddChannel { schema_id, topic: named, message_encoding: message_encoding.as_str() }
    }

    /// Writes a message on its topic's channel.
    fn write(&mut self, message: QueuedMessage<P>) -> (r: Action)
        requires
            old(self).wf(),
        ensures
            final(self).channels == old(self).channels,
            (final(self).pending, r@) == write_step(old(self).channels@, message),
    {
        match self.channels.get(message.topic.as_str()) {
            Some(channel) => {
                let header = MessageHeader {
                    channel_id: channel.channel_id,
                    sequence: channel.sequence,
                    log_time: message.log_time,
                    publish_time: message.publish_time,
                };
                let data = message.payload.bytes();
                self.pending = Pending::Message { topic: message.topic };
                Action::WriteMessage { header, data }
            },
            None => {
                self.pending = Pending::Nothing;
                Action::Stop(Err(WriterError::NotRegistered(message.topic)))
            },
        }
    }
}

/// A message on a known topic is written at once, provided that the known topics are those with
/// a channel.
pub proof fn lemma_known_topic_is_written<P: RecordPayload>(
    known: Set<Seq<char>>,
    channels: Map<Seq<char>, Channel>,
    command: WriterCommand<P>,
    topic: Seq<char>,
    log_time: u64,
    publish_time: u64,
    payload: P,
)
    requires
        channels.dom() == known,
        known.contains(topic),
        crate::recording::queue::writes(command, topic, log_time, publish_time, payload, None),
    ensures
        command_step(channels, command).1 == (ActionModel::WriteMessage {
            header: MessageHeader {
                channel_id: channels[topic].channel_id,
                sequence: channels[topic].sequence,
                log_time,
                publish_time,
            },
            data: payload.content(),
        }),
{
}

/// A message on a new topic, queued with its descriptor, is never refused: its topic is not
/// registered yet, and once the file has given ids the message is the first on a new channel.
/// The topics with a channel are then again the known ones.
pub proof fn lemma_new_topic_is_registered<P: RecordPayload>(
    known: Set<Seq<char>>,
    channels: Map<Seq<char>, Channel>,
    topic: Seq<char>,
    log_time: u64,
    publish_time: u64,
    payload: P,
    descriptor: ChannelDescriptor,
    command: WriterCommand<P>,
    schema_id: u16,
    channel_id: u16,
)
    requires
        channels.dom() == known,
        !known.contains(topic),
        descriptor.topic@ == topic,
        crate::recording::queue::writes(
            command,
            topic,
            log_time,
            publish_time,
            payload,
            Some(descriptor),
        ),
    ensures
        ({
            let begun = command_step(channels, command).0;
            let after_schema = if begun is Schema {
                event_step(channels, begun, Event::Schema(Some(schema_id))).0
            } else {
                begun
            };
            let added = Event::Channel(Some(channel_id));
            &&& begun is Schema || begun is Channel
            &&& after_schema is Channel
            &&& fits(channels, after_schema, added)
            &&& channels_after(channels, after_schema, added).dom() == known.insert(topic)
            &&& event_step(channels, after_schema, added).1 == (ActionModel::WriteMessage {
                header: MessageHeader { channel_id, sequence: 0, log_time, publish_time },
                data: payload.content(),
            })
        }),
{
    let message = command->Write_0;
    let begun = command_step(channels, command).0;
    let after_schema = if begun is Schema {
        event_step(channels, begun, Event::Schema(Some(schema_id))).0
    } else {
        begun
    };
    let added = Event::Channel(Some(channel_id));
    assert(channels_after(channels, after_schema, added).dom() =~= known.insert(topic));
}

/// The channel of a topic after messages of which some could be written.
pub open spec fn after_writes<P>(
    channels: Map<Seq<char>, Channel>,
    topic: String,
    written: Seq<bool>,
) -> Map<Seq<char>, Channel>
    decreases written.len(),
{
    if written.len() == 0 {
        channels
    } else {
        channels_after(
            after_writes::<P>(channels, topic, written.drop_last()),
            Pending::<P>::Message { topic },
            Event::Written(written.last()),
        )
    }
}

/// How many of the messages were written.
pub open spec fn count_written(written: Seq<bool>) -> nat
    decreases written.len(),
{
    if written.len() == 0 {
        0
    } else if written.last() {
        count_written(written.drop_last()) + 1
    } else {
        count_written(written.drop_last())
    }
}

/// A topic's messages are numbered from where its channel stood, without a gap: a message that
/// could not be written uses no number. Other channels stay as they are.
pub proof fn lemma_messages_are_numbered<P>(
    channels: Map<Seq<char>, Channel>,
    topic: String,
    written: Seq<bool>,
)
    requires
        channels.contains_key(topic@),
        channels[topic@].sequence + written.len() <= u32::MAX,
    ensures
        after_writes::<P>(channels, topic, written) == channels.insert(
            topic@,
            Channel {
                channel_id: channels[topic@].channel_id,
                sequence: (channels[topic@].sequence + count_written(written)) as u32,
            },
        ),
        count_written(written) <= written.len(),
    decreases written.len(),
{
    if written.len() == 0 {
        assert(channels =~= channels.insert(topic@, channels[topic@]));
    } else {
        lemma_messages_are_numbered::<P>(channels, topic, written.drop_last());
        let before = after_writes::<P>(channels, topic, written.drop_last());
        let after = after_writes::<P>(channels, topic, written);
        assert(after =~= channels.insert(
            topic@,
            Channel {
                channel_id: channels[topic@].channel_id,
                sequence: (channels[topic@].sequence + count_written(written)) as u32,
            },
        ));
    }
}

/// No step takes a registered topic's channel away, and only a channel that the file has added
/// registers a topic.
pub proof fn lemma_channels_stay<P>(
    channels: Map<Seq<char>, Channel>,
    pending: Pending<P>,
    event: Event,
)
    requires
        is_registered(channels, pending),
        fits(channels, pending, event),
    ensures
        channels.dom().subset_of(channels_after(channels, pending, event).dom()),
        channels_after(channels, pending, event).dom() != channels.dom() ==> pending is Channel
            && event is Channel,
{
    if pending is Message {
        assert(channels_after(channels, pending, event).dom() =~= channels.dom());
    }
}

/// A message that brings a descriptor for a new topic has the topic declared in the file as the
/// descriptor says. A schema with content is added first, under its own name, encoding and text.
/// Then the channel is added, with the id that the schema was given or with none, for the
/// descriptor's topic, and naming the descriptor's own message encoding: `json` for JSON and `cdr`
/// for CDR.
pub proof fn lemma_topics_are_declared<P: RecordPayload>(
    channels: Map<Seq<char>, Channel>,
    descriptor: ChannelDescriptor,
    message: QueuedMessage<P>,
    schema_id: u16,
)
    requires
        !channels.contains_key(descriptor.topic@),
    ensures
        ({
            let command = WriterCommand::Write(message, Some(descriptor));
            let begun = command_step(channels, command);
            let has_schema = descriptor.schema is Some && descriptor.schema->Some_0.content is Some;
            let declared = if has_schema {
                event_step(channels, begun.0, Event::Schema(Some(schema_id)))
            } else {
                begun
            };
            &&& has_schema ==> {
                let schema = descriptor.schema->Some_0;
                &&& begun.1 is AddSchema
                &&& begun.1->name == schema.content->Some_0.name@
                &&& begun.1->text == schema.content->Some_0.data@
                &&& begun.1->encoding == (match schema.encoding {
                    SchemaEncoding::Ros2Msg => "ros2msg"@,
                    SchemaEncoding::JsonSchema => "jsonschema"@,
                })
                &&& fits(channels, begun.0, Event::Schema(Some(schema_id)))
            }
            &&& declared.1 is AddChannel
            &&& declared.1->schema_id == (if has_schema {
                schema_id
            } else {
                0u16
            })
            &&& declared.1->AddChannel_topic == descriptor.topic@
            &&& descriptor.message_encoding == MessageEncoding::Json
                ==> declared.1->message_encoding == "json"@
            &&& descriptor.message_encoding == MessageEncoding::Cdr
                ==> declared.1->message_encoding == "cdr"@
        }),
{
}

/// Descriptors with different message encodings lead to channels that are declared differently.
pub proof fn lemma_encodings_are_told_apart<P: RecordPayload>(
    channels: Map<Seq<char>, Channel>,
    first: ChannelDescriptor,
    second: ChannelDescriptor,
    message: QueuedMessage<P>,
    schema_id: u16,
)
    requires
        !channels.contains_key(first.topic@),
        !channels.contains_key(second.topic@),
        first.message_encoding != second.message_encoding,
    ensures
        declaration(channels, first, message, schema_id)->message_encoding != declaration(
            channels,
            second,
            message,
            schema_id,
        )->message_encoding,
{
    lemma_topics_are_declared(channels, first, message, schema_id);
    lemma_topics_are_declared(channels, second, message, schema_id);
    reveal_strlit("json");
    reveal_strlit("cdr");
    assert("json"@.len() != "cdr"@.len());
}

/// How the channel of a new topic is added.
pub open spec fn declaration<P: RecordPayload>(
    channels: Map<Seq<char>, Channel>,
    descriptor: ChannelDescriptor,
    message: QueuedMessage<P>,
    schema_id: u16,
) -> ActionModel {
    let begun = command_step(channels, WriterCommand::Write(message, Some(descriptor)));
    if begun.0 is Schema {
        event_step(channels, begun.0, Event::Schema(Some(schema_id))).1
    } else {
        begun.1
    }
}

/// A channel that the file has added is that of its topic, with the file's id and without messages;
/// other channels stay. The message that brought it is written as its first.
pub proof fn lemma_added_channel<P: RecordPayload>(
    channels: Map<Seq<char>, Channel>,
    topic: String,
    message: QueuedMessage<P>,
    channel_id: u16,
    other: Seq<char>,
)
    requires
        message.topic@ == topic@,
    ensures
        ({
            let pending = Pending::Channel { topic, message };
            let added = Event::Channel(Some(channel_id));
            let after = channels_after(channels, pending, added);
            let next = event_step(channels, pending, added);
            &&& after.contains_key(topic@)
            &&& after[topic@].channel_id == channel_id
            &&& after[topic@].sequence == 0
            &&& other != topic@ ==> (after.contains_key(other) <==> channels.contains_key(other))
            &&& other != topic@ && channels.contains_key(other) ==> after[other] == channels[other]
            &&& next.1 is WriteMessage
            &&& next.1->header.channel_id == channel_id
            &&& next.1->header.sequence == 0
            &&& next.1->header.log_time == message.log_time
            &&& next.1->header.publish_time == message.publish_time
            &&& next.1->data == message.payload.content()
        }),
{
}

/// A message that was written moves the number of its channel on by one, one that failed does not;
/// either way the next command may come.
pub proof fn lemma_written_messages<P: RecordPayload>(
    channels: Map<Seq<char>, Channel>,
    topic: String,
    written: bool,
    other: Seq<char>,
)
    requires
        channels.contains_key(topic@),
        channels[topic@].sequence < u32::MAX,
    ensures
        ({
            let pending = Pending::<P>::Message { topic };
            let after = channels_after(channels, pending, Event::Written(written));
            let next = event_step(channels, pending, Event::Written(written));
            &&& after[topic@].sequence == channels[topic@].sequence + (if written {
                1int
            } else {
                0int
            })
            &&& after[topic@].channel_id == channels[topic@].channel_id
            &&& after.contains_key(other) <==> channels.contains_key(other)
            &&& other != topic@ && channels.contains_key(other) ==> after[other] == channels[other]
            &&& next.0 is Command
            &&& next.1 is Next
        }),
{
}

/// What the file refuses ends the writer with an error, and so does a topic that is registered
/// twice or not at all; a flush that fails ends nothing, and the end of the file ends the writer
/// well.
pub proof fn lemma_refusals<P: RecordPayload>(
    channels: Map<Seq<char>, Channel>,
    topic: String,
    message_encoding: MessageEncoding,
    message: QueuedMessage<P>,
    descriptor: ChannelDescriptor,
    flushed: bool,
)
    ensures
        event_step(
            channels,
            Pending::Schema { topic, message_encoding, message },
            Event::Schema(None),
        ).1 is SchemaRefused,
        event_step(
            channels,
            Pending::Channel { topic, message },
            Event::Channel(None),
        ).1 is ChannelRefused,
        channels_after(
            channels,
            Pending::Channel { topic, message },
            Event::Channel(None),
        ) == channels,
        channels.contains_key(descriptor.topic@) ==> command_step(
            channels,
            WriterCommand::Write(message, Some(descriptor)),
        ).1 is AlreadyRegistered,
        !channels.contains_key(message.topic@) ==> command_step(
            channels,
            WriterCommand::Write(message, None),
        ).1 == (ActionModel::NotRegistered { topic: message.topic@ }),
        command_step(channels, WriterCommand::<P>::Flush).1 is Flush,
        command_step(channels, WriterCommand::<P>::Finish).1 is Finish,
        event_step(channels, Pending::<P>::Flush, Event::Flushed(flushed)).1 is Next,
        event_step(channels, Pending::<P>::Finish, Event::Finished(true)).1 is Done,
        event_step(channels, Pending::<P>::Finish, Event::Finished(false)).1 is FinishFailed,
{
}

/// Whatever the file answers to what it was asked is an answer that the writer can go on with; only
/// a message that was written must have had a number left.
pub proof fn lemma_answers_fit<P>(
    channels: Map<Seq<char>, Channel>,
    topic: String,
    message_encoding: MessageEncoding,
    message: QueuedMessage<P>,
    id: Option<u16>,
    done: bool,
)
    ensures
        fits(channels, Pending::Schema { topic, message_encoding, message }, Event::Schema(id)),
        fits(channels, Pending::Channel { topic, message }, Event::Channel(id)),
        fits(channels, Pending::<P>::Message { topic }, Event::Written(false)),
        channels[topic@].sequence < u32::MAX ==> fits(
            channels,
            Pending::<P>::Message { topic },
            Event::Written(true),
        ),
        fits(channels, Pending::<P>::Flush, Event::Flushed(done)),
        fits(channels, Pending::<P>::Finish, Event::Finished(done)),
{
}

/// What a command is begun with. A message on a channel is written on it. The first message on a
/// topic has the topic declared: first its schema, if there is one with content, else its channel.
pub proof fn lemma_commands_are_begun<P: RecordPayload>(
    writer: &mut WriterLoop<P>,
    command: WriterCommand<P>,
    r: Action,
)
    requires
        call_ensures(WriterLoop::<P>::accept, (writer, command), r),
    ensures
        final(writer).channels@ == old(writer).channels@,
        command is Flush ==> r is Flush,
        command is Finish ==> r is Finish,
        command is Write && command->Write_1 is None ==> {
            let message = command->Write_0;
            let channels = old(writer).channels@;
            &&& channels.contains_key(message.topic@) <==> r is WriteMessage
            &&& r is WriteMessage ==> {
                &&& r->header.channel_id == channels[message.topic@].channel_id
                &&& r->header.sequence == channels[message.topic@].sequence
                &&& r->header.log_time == message.log_time
                &&& r->header.publish_time == message.publish_time
                &&& r->data@ == message.payload.content()
            }
            &&& !(r is WriteMessage) ==> r is Stop && r->Stop_0 is Err && r->Stop_0->Err_0
                is NotRegistered && r->Stop_0->Err_0->NotRegistered_0@ == message.topic@
        },
        command is Write && command->Write_1 is Some ==> {
            let descriptor = command->Write_1->Some_0;
            let has_schema = descriptor.schema is Some && descriptor.schema->Some_0.content is Some;
            let is_known = old(writer).channels@.contains_key(descriptor.topic@);
            &&& is_known ==> r is Stop && r->Stop_0 is Err && r->Stop_0->Err_0 is AlreadyRegistered
            &&& !is_known && has_schema ==> {
                &&& r is AddSchema
                &&& r->name@ == descriptor.schema->Some_0.content->Some_0.name@
                &&& r->text@ == descriptor.schema->Some_0.content->Some_0.data@
                &&& descriptor.schema->Some_0.encoding == SchemaEncoding::Ros2Msg
                    ==> r->encoding@ == "ros2msg"@
                &&& descriptor.schema->Some_0.encoding == SchemaEncoding::JsonSchema
                    ==> r->encoding@ == "jsonschema"@
            }
            &&& !is_known && !has_schema ==> {
                &&& r is AddChannel
                &&& r->schema_id == 0
                &&& r->AddChannel_topic@ == descriptor.topic@
                &&& descriptor.message_encoding == MessageEncoding::Json
                    ==> r->message_encoding@ == "json"@
                &&& descriptor.message_encoding == MessageEncoding::Cdr
                    ==> r->message_encoding@ == "cdr"@
            }
        },
{
}

/// What comes of the file's answers. A schema that was added is followed by the channel, which is
/// declared with it and with the encoding of its messages. A channel that was added is there from
/// then on, without messages. A message that was written counts, one that was not does not.
pub proof fn lemma_answers_are_followed<P: RecordPayload>(
    writer: &mut WriterLoop<P>,
    event: Event,
    r: Action,
    other: Seq<char>,
)
    requires
        call_ensures(WriterLoop::<P>::step, (writer, event), r),
        fits(old(writer).channels@, old(writer).pending, event),
    ensures
        event is Schema && event->Schema_0 is Some ==> {
            let pending = old(writer).pending;
            &&& pending is Schema
            &&& r is AddChannel
            &&& r->schema_id == event->Schema_0->Some_0
            &&& r->AddChannel_topic@ == pending->Schema_topic@
            &&& pending->message_encoding == MessageEncoding::Json
                ==> r->message_encoding@ == "json"@
            &&& pending->message_encoding == MessageEncoding::Cdr
                ==> r->message_encoding@ == "cdr"@
        },
        event == Event::Schema(None) ==> r is Stop && r->Stop_0 is Err && r->Stop_0->Err_0
            is SchemaRefused,
        event == Event::Channel(None) ==> r is Stop && r->Stop_0 is Err && r->Stop_0->Err_0
            is ChannelRefused,
        event is Channel && event->Channel_0 is Some ==> {
            let topic = old(writer).pending->Channel_topic@;
            &&& old(writer).pending is Channel
            &&& final(writer).channels@.contains_key(topic)
            &&& final(writer).channels@[topic].channel_id == event->Channel_0->Some_0
            &&& final(writer).channels@[topic].sequence == 0
            &&& other != topic ==> (final(writer).channels@.contains_key(other) <==> old(
                writer,
            ).channels@.contains_key(other))
            &&& other != topic && old(writer).channels@.contains_key(other) ==> final(writer).channels@[other] == old(writer).channels@[other]
        },
        event is Written ==> {
            let topic = old(writer).pending->Message_topic@;
            &&& r is Next
            &&& old(writer).channels@.contains_key(topic) ==> final(writer).channels@[topic].sequence == old(writer).channels@[topic].sequence + (
            if event->Written_0 {
                1int
            } else {
                0int
            })
        },
        !(event is Channel) && !(event is Written) ==> final(writer).channels@ == old(
            writer,
        ).channels@,
        event is Flushed ==> r is Next,
        event == Event::Finished(true) ==> r is Stop && r->Stop_0 is Ok,
        event == Event::Finished(false) ==> r is Stop && r->Stop_0 is Err && r->Stop_0->Err_0
            is FinishFailed,
{
}

/// A writer begins without channels and waits for a command.
pub proof fn lemma_writer_begins<P: RecordPayload>(r: WriterLoop<P>, topic: Seq<char>)
    requires
        call_ensures(WriterLoop::<P>::new, (), r),
    ensures
        r.pending is Command,
        !r.channels@.contains_key(topic),
{
}

/// A message that is being written has a number left unless its channel has had all 32 bits of
/// them.
pub proof fn lemma_numbers_left<P: RecordPayload>(writer: &WriterLoop<P>, r: bool)
    requires
        call_ensures(WriterLoop::<P>::has_number_left, (writer,), r),
        writer.pending is Message,
    ensures
        r <==> writer.channels@[writer.pending->Message_topic@].sequence < 4_294_967_295,
{
}

/// Each error has its words.
pub proof fn lemma_words(error: &WriterError, r: String)
    requires
        call_ensures(WriterError::message, (error,), r),
    ensures
        error is AlreadyRegistered ==> r@ == "Channel already registered"@,
        error is SchemaRefused ==> r@ == "Failed to add MCAP schema"@,
        error is ChannelRefused ==> r@ == "Failed to add MCAP channel"@,
        error is NotRegistered ==> r@ == "Channel not registered for topic "@
            + error->NotRegistered_0@,
        error is FinishFailed ==> r@ == "Failed to finish MCAP writer"@,
{
}

} // verus!
