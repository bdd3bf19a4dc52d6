use blueos_recorder::channel_descriptor::{
    ChannelDescriptor, MessageEncoding, SchemaDescriptor, SchemaDescriptorContent, SchemaEncoding,
};
use blueos_recorder::recording::config::{McapCompression, McapWriteConfig};
use blueos_recorder::recording::queue::{
    join_result, JoinOutcome, Mcap, McapWriter, QueuedMessage, RecordPayload, WriteError,
    WriterCommand,
};
use blueos_recorder::recording::writer::{Action, Event, WriterError, WriterLoop};

fn descriptor(topic: &str, schema: Option<SchemaDescriptor>) -> ChannelDescriptor {
    ChannelDescriptor {
        topic: topic.to_string(),
        schema,
        message_encoding: MessageEncoding::Cdr,
    }
}

fn schema() -> SchemaDescriptor {
    SchemaDescriptor {
        encoding: SchemaEncoding::Ros2Msg,
        content: Some(SchemaDescriptorContent {
            name: "pkg.Name".to_string(),
            data: "int32 x".to_string(),
        }),
    }
}

fn message(topic: &str, log_time: u64) -> QueuedMessage<Vec<u8>> {
    QueuedMessage {
        topic: topic.to_string(),
        log_time,
        publish_time: log_time + 1,
        payload: vec![1, 2, 3],
    }
}

fn write(topic: &str, log_time: u64) -> WriterCommand<Vec<u8>> {
    WriterCommand::Write(message(topic, log_time), None)
}

fn secs(n: u64) -> u64 {
    n * 1_000_000_000
}

#[test]
fn default_config() {
    let config = McapWriteConfig::default();
    assert_eq!(config.compression, McapCompression::Lz4);
    assert_eq!(config.compression, McapCompression::default());
    assert!(config.crc);
    assert_eq!(config.chunk_size, 10 * 1024 * 1024);
    assert_eq!(config.flush_interval_secs, 30);
    assert_eq!(config.io_buffer_bytes(), 10 * 1024 * 1024);
    let small = McapWriteConfig {
        chunk_size: 1,
        ..config
    };
    assert_eq!(small.io_buffer_bytes(), 4 * 1024 * 1024);
}

#[test]
fn options_follow_the_config() {
    let config = McapWriteConfig::default();
    let expected = mcap::WriteOptions::new()
        .compression(Some(mcap::Compression::Lz4))
        .chunk_size(Some(10 * 1024 * 1024))
        .compression_threads(2)
        .emit_message_indexes(true)
        .calculate_chunk_crcs(true)
        .calculate_data_section_crc(true)
        .calculate_summary_section_crc(true)
        .calculate_attachment_crcs(true);
    assert_eq!(
        format!("{:?}", config.write_options()),
        format!("{expected:?}")
    );
    let plain = McapWriteConfig {
        compression: McapCompression::Uncompressed,
        crc: false,
        chunk_size: 7,
        flush_interval_secs: 30,
    };
    let expected = mcap::WriteOptions::new()
        .compression(None)
        .chunk_size(Some(7))
        .compression_threads(0)
        .emit_message_indexes(true)
        .calculate_chunk_crcs(false)
        .calculate_data_section_crc(false)
        .calculate_summary_section_crc(false)
        .calculate_attachment_crcs(false);
    assert_eq!(
        format!("{:?}", plain.write_options()),
        format!("{expected:?}")
    );
    let zstd = McapWriteConfig {
        compression: McapCompression::Zstd,
        ..config
    };
    assert!(format!("{:?}", zstd.write_options()).contains("Zstd"));
}

#[test]
fn first_message_brings_its_descriptor() {
    let mut writer = McapWriter::new();
    assert!(!writer.is_known("a"));
    match writer.write_message("a", 1, 2, vec![9u8], || Some(descriptor("a", None))) {
        Ok(Some(WriterCommand::Write(message, Some(found)))) => {
            assert_eq!(message.topic, "a");
            assert_eq!(message.log_time, 1);
            assert_eq!(message.publish_time, 2);
            assert_eq!(message.payload, vec![9]);
            assert_eq!(found.topic, "a");
        }
        _ => panic!("a message with a descriptor"),
    }
    assert!(writer.is_known("a"));
    match writer.write_message("a", 3, 4, vec![8u8], || panic!("known")) {
        Ok(Some(WriterCommand::Write(message, None))) => assert_eq!(message.payload, vec![8]),
        _ => panic!("a message without a descriptor"),
    }
}

#[test]
fn topics_without_descriptor_are_left_out() {
    let mut writer = McapWriter::new();
    assert!(matches!(
        writer.write_message("a", 1, 2, vec![9u8], || None),
        Ok(None)
    ));
    match writer.write_on_new_topic("a", 1, 2, vec![9u8], Some(descriptor("b", None))) {
        Err(error) => {
            assert_eq!(error.message(), "Channel descriptor topic mismatch: b");
            let WriteError::TopicMismatch(topic) = error;
            assert_eq!(topic, "b");
        }
        Ok(_) => panic!("an error"),
    }
    // Neither made the topic known.
    assert!(matches!(
        writer.write_message("a", 1, 2, vec![9u8], || Some(descriptor("a", None))),
        Ok(Some(WriterCommand::Write(_, Some(_))))
    ));
}

#[test]
fn flushes_keep_apart() {
    let writer = McapWriter::new();
    let mut recording = Mcap::try_new(McapWriteConfig::default(), secs(100));
    let due = |recording: &Mcap, now: u64| {
        let command: Option<WriterCommand<Vec<u8>>> = recording.flush(&writer, now);
        match command {
            Some(WriterCommand::Flush) => true,
            None => false,
            Some(_) => panic!("a flush"),
        }
    };
    assert!(!due(&recording, secs(100)));
    assert!(!due(&recording, secs(130) - 1));
    assert!(due(&recording, secs(130)));
    recording.flush_sent(secs(130));
    assert!(!due(&recording, secs(130)));
    assert!(!due(&recording, secs(50)));
    assert!(due(&recording, secs(160)));
}

#[test]
fn recordings_end_once() {
    let writer = McapWriter::new();
    let mut recording = Mcap::try_new(McapWriteConfig::default(), 0);
    let commands: Vec<WriterCommand<Vec<u8>>> = recording.finish(&writer);
    assert_eq!(commands.len(), 2);
    assert!(matches!(commands[0], WriterCommand::Flush));
    assert!(matches!(commands[1], WriterCommand::Finish));
    assert!(recording.take_writer_thread());
    assert!(!recording.take_writer_thread());
    assert_eq!(join_result(JoinOutcome::Returned(Ok(()))), Ok(()));
    assert_eq!(
        join_result(JoinOutcome::Returned(Err("x".to_string()))),
        Err("x".to_string())
    );
    assert_eq!(
        join_result(JoinOutcome::Panicked),
        Err("MCAP writer thread panicked".to_string())
    );
    assert_eq!(
        join_result(JoinOutcome::WaitFailed),
        Err("MCAP writer join task failed".to_string())
    );
}

#[test]
fn payload_bytes() {
    assert_eq!(vec![1u8, 2].bytes(), vec![1, 2]);
}

#[test]
fn new_topic_is_registered_and_written() {
    let mut writer: WriterLoop<Vec<u8>> = WriterLoop::new();
    let action = writer.accept(WriterCommand::Write(
        message("a", 10),
        Some(descriptor("a", Some(schema()))),
    ));
    match action {
        Action::AddSchema {
            name,
            encoding,
            text,
        } => {
            assert_eq!(name, "pkg.Name");
            assert_eq!(encoding, "ros2msg");
            assert_eq!(text, "int32 x");
        }
        other => panic!("{other:?}"),
    }
    match writer.step(Event::Schema(Some(4))) {
        Action::AddChannel {
            schema_id,
            topic,
            message_encoding,
        } => {
            assert_eq!(schema_id, 4);
            assert_eq!(topic, "a");
            assert_eq!(message_encoding, "cdr");
        }
        other => panic!("{other:?}"),
    }
    match writer.step(Event::Channel(Some(7))) {
        Action::WriteMessage { header, data } => {
            assert_eq!(header.channel_id, 7);
            assert_eq!(header.sequence, 0);
            assert_eq!(header.log_time, 10);
            assert_eq!(header.publish_time, 11);
            assert_eq!(data, vec![1, 2, 3]);
        }
        other => panic!("{other:?}"),
    }
    assert!(writer.has_number_left());
    assert!(matches!(writer.step(Event::Written(true)), Action::Next));
    assert!(!writer.has_number_left());
}

#[test]
fn messages_are_numbered_without_gaps() {
    let mut writer: WriterLoop<Vec<u8>> = WriterLoop::new();
    let action = writer.accept(WriterCommand::Write(
        message("a", 0),
        Some(descriptor("a", None)),
    ));
    match action {
        Action::AddChannel { schema_id, .. } => assert_eq!(schema_id, 0),
        other => panic!("{other:?}"),
    }
    writer.step(Event::Channel(Some(1)));
    let mut sequences = vec![];
    for written in [true, false, true, true] {
        assert!(matches!(writer.step(Event::Written(written)), Action::Next));
        match writer.accept(write("a", 5)) {
            Action::WriteMessage { header, .. } => sequences.push(header.sequence),
            other => panic!("{other:?}"),
        }
    }
    assert_eq!(sequences, vec![1, 1, 2, 3]);
}

#[test]
fn a_schema_without_content_is_no_schema() {
    let mut writer: WriterLoop<Vec<u8>> = WriterLoop::new();
    let empty = SchemaDescriptor {
        encoding: SchemaEncoding::JsonSchema,
        content: None,
    };
    let action = writer.accept(WriterCommand::Write(
        message("a", 0),
        Some(descriptor("a", Some(empty))),
    ));
    assert!(matches!(action, Action::AddChannel { schema_id: 0, .. }));
}

#[test]
fn flush_and_finish() {
    let mut writer: WriterLoop<Vec<u8>> = WriterLoop::new();
    for flushed in [true, false] {
        assert!(matches!(writer.accept(WriterCommand::Flush), Action::Flush));
        assert!(matches!(writer.step(Event::Flushed(flushed)), Action::Next));
    }
    assert!(matches!(writer.accept(WriterCommand::Finish), Action::Finish));
    assert!(matches!(
        writer.step(Event::Finished(true)),
        Action::Stop(Ok(()))
    ));
}

fn error_of(action: Action) -> WriterError {
    match action {
        Action::Stop(Err(error)) => error,
        other => panic!("{other:?}"),
    }
}

#[test]
fn writer_errors() {
    let mut writer: WriterLoop<Vec<u8>> = WriterLoop::new();
    let error = error_of(writer.accept(write("x", 0)));
    assert!(matches!(error, WriterError::NotRegistered(_)));
    assert_eq!(error.message(), "Channel not registered for topic x");

    let mut writer: WriterLoop<Vec<u8>> = WriterLoop::new();
    writer.accept(WriterCommand::Write(
        message("a", 0),
        Some(descriptor("a", Some(schema()))),
    ));
    let error = error_of(writer.step(Event::Schema(None)));
    assert!(matches!(error, WriterError::SchemaRefused));
    assert_eq!(error.message(), "Failed to add MCAP schema");

    let mut writer: WriterLoop<Vec<u8>> = WriterLoop::new();
    writer.accept(WriterCommand::Write(
        message("a", 0),
        Some(descriptor("a", None)),
    ));
    let error = error_of(writer.step(Event::Channel(None)));
    assert!(matches!(error, WriterError::ChannelRefused));
    assert_eq!(error.message(), "Failed to add MCAP channel");

    let mut writer: WriterLoop<Vec<u8>> = WriterLoop::new();
    writer.accept(WriterCommand::Write(
        message("a", 0),
        Some(descriptor("a", None)),
    ));
    writer.step(Event::Channel(Some(1)));
    writer.step(Event::Written(true));
    let error = error_of(writer.accept(WriterCommand::Write(
        message("a", 1),
        Some(descriptor("a", None)),
    )));
    assert!(matches!(error, WriterError::AlreadyRegistered));
    assert_eq!(error.message(), "Channel already registered");

    let mut writer: WriterLoop<Vec<u8>> = WriterLoop::new();
    writer.accept(WriterCommand::Finish);
    let error = error_of(writer.step(Event::Finished(false)));
    assert!(matches!(error, WriterError::FinishFailed));
    assert_eq!(error.message(), "Failed to finish MCAP writer");
}

#[test]
fn queue_and_writer_agree() {
    let mut queue = McapWriter::new();
    let mut writer: WriterLoop<Vec<u8>> = WriterLoop::new();
    let mut next_id = 0;
    let mut written = vec![];
    for (time, topic) in ["a", "b", "a", "a", "b"].into_iter().enumerate() {
        let command = queue
            .write_message(topic, time as u64, 0, vec![0u8], || {
                Some(descriptor(topic, None))
            })
            .expect("no error")
            .expect("a command");
        let mut action = writer.accept(command);
        if let Action::AddChannel { .. } = action {
            next_id += 1;
            action = writer.step(Event::Channel(Some(next_id)));
        }
        match action {
            Action::WriteMessage { header, .. } => {
                written.push((header.channel_id, header.sequence))
            }
            other => panic!("{other:?}"),
        }
        assert!(matches!(writer.step(Event::Written(true)), Action::Next));
    }
    assert_eq!(written, vec![(1, 0), (2, 0), (1, 1), (1, 2), (2, 1)]);
}
