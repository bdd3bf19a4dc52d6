use blueos_recorder::channel_descriptor::{MessageEncoding, SchemaSource};
use blueos_recorder::mav::camera::stream::{Clock, VideoStream};
use blueos_recorder::mav::frame::Packet;
use blueos_recorder::mav::wire::{CommandLong, MavlinkVersion, Message};
use blueos_recorder::mav::worker::MavlinkWorker;
use blueos_recorder::recording::queue::{McapWriter, RecordPayload, WriterCommand};
use blueos_recorder::service::{
    filename_for, generate_filename, is_enqueued, log_time_of, should_record_sample, Sample,
    SampleProcessor, SystemAndComponent,
};

fn heartbeat(base_mode: u8) -> Packet {
    Packet {
        version: MavlinkVersion::V2,
        message_id: 0,
        system_id: 1,
        component_id: 1,
        sequence: 0,
        payload: vec![0, 0, 0, 0, 2, 3, base_mode, 4, 3],
        crc_valid: true,
    }
}

fn camera() -> SystemAndComponent {
    SystemAndComponent {
        system_id: 1,
        component_id: 100,
    }
}

fn command(code: u32) -> Message {
    Message::CommandLong(CommandLong {
        target_system: 1,
        target_component: 100,
        command: code,
        param2_bits: 0,
    })
}

fn worker_with_stream() -> MavlinkWorker {
    let mut worker = MavlinkWorker::new();
    worker.video_streams.insert(
        "video/Front/stream".to_string(),
        VideoStream::new("video/Front/stream".to_string(), camera()),
    );
    worker
}

#[test]
fn filenames() {
    assert_eq!(
        generate_filename(0, 0).as_deref(),
        Some("recorder_19700101_000000.mcap")
    );
    assert_eq!(
        generate_filename(1_700_000_000, 999_999_999).as_deref(),
        Some("recorder_20231114_221320.mcap")
    );
    assert_eq!(generate_filename(u64::MAX / 2, 0), None);
    assert_eq!(generate_filename(0, 2_000_000_000), None);
    assert_eq!(filename_for("x"), "recorder_x.mcap");
}

#[test]
fn mavlink_is_recorded_while_armed() {
    let mut worker = MavlinkWorker::new();
    for topic in ["mavlink/1/1/HEARTBEAT", "mavlink_raw/out", "mavlink_raw/in"] {
        assert!(!should_record_sample(&worker, topic));
    }
    assert!(should_record_sample(&worker, "mavlink"));
    assert!(should_record_sample(&worker, "mavlink_rawer/out"));
    assert!(should_record_sample(&worker, ""));
    assert!(worker.on_packet(Some(&heartbeat(0x80))).is_some());
    for topic in ["mavlink/1/1/HEARTBEAT", "mavlink_raw/out", "mavlink_raw/in"] {
        assert!(should_record_sample(&worker, topic));
    }
    assert!(worker.on_packet(Some(&heartbeat(0x80))).is_none());
    assert!(worker.on_packet(None).is_none());
    assert!(worker.is_armed());
    assert!(worker.on_packet(Some(&heartbeat(0x01))).is_some());
    assert!(!should_record_sample(&worker, "mavlink_raw/out"));
}

#[test]
fn video_is_recorded_while_its_stream_records() {
    let mut worker = worker_with_stream();
    let clock = Clock { boot: 0, now: 5 };
    assert!(!should_record_sample(&worker, "video/Front/stream"));
    let started = worker.on_camera_message(camera(), &command(2500), 1000, clock);
    assert_eq!(started.frames.len(), 1);
    assert_eq!(started.tasks.len(), 1);
    assert!(should_record_sample(&worker, "video/Front/stream"));
    assert!(worker.is_video_recording("video/Front/stream"));
    assert!(!should_record_sample(&worker, "video/Back/stream"));
    let stopped = worker.on_camera_message(camera(), &command(2501), 1000, clock);
    assert_eq!(stopped.frames.len(), 1);
    assert!(!should_record_sample(&worker, "video/Front/stream"));
}

#[test]
fn cameras_register_streams() {
    let mut worker = MavlinkWorker::new();
    let clock = Clock { boot: 0, now: 0 };
    let mut name = b"Front cam".to_vec();
    name.resize(32, 0);
    let info = Message::VideoStreamInformation { name };
    worker.on_camera_message(camera(), &info, 0, clock);
    assert_eq!(worker.video_streams.len(), 0);
    worker.on_camera_message(camera(), &Message::CameraInformation { flags: 3 }, 0, clock);
    worker.on_camera_message(camera(), &info, 0, clock);
    worker.on_camera_message(camera(), &info, 0, clock);
    assert_eq!(worker.video_streams.len(), 1);
    assert!(worker.video_streams.contains_key("video/Frontcam/stream"));
    worker.on_camera_message(camera(), &Message::CameraInformation { flags: 2 }, 0, clock);
    assert!(!worker.recording_capable.contains(camera()));
    let nothing = worker.on_camera_message(camera(), &Message::Other, 0, clock);
    assert!(nothing.frames.is_empty() && nothing.tasks.is_empty());
}

#[test]
fn other_components_are_asked() {
    let mut worker = MavlinkWorker::new();
    let clock = Clock { boot: 0, now: 0 };
    let autopilot = SystemAndComponent {
        system_id: 1,
        component_id: 1,
    };
    let beat = Message::Heartbeat { base_mode: 0x80 };
    worker.on_camera_message(autopilot, &beat, 0, clock);
    assert!(worker.discoverer.discovery_round().is_empty());
    worker.on_camera_message(camera(), &beat, 0, clock);
    worker.on_camera_message(camera(), &beat, 0, clock);
    let round = worker.discoverer.discovery_round();
    assert_eq!(round.len(), 2);
    assert_eq!(round[0][4], 0);
    assert_eq!(round[1][4], 1);
    assert!(!worker.is_armed());
}

#[test]
fn payloads_of_known_topics_are_handed_on() {
    let worker = MavlinkWorker::new();
    let mut processor = SampleProcessor {
        mcap: McapWriter::new(),
    };
    let sample = Sample {
        topic: "depth/value",
        encoding: "application/json",
        timestamp: None,
    };
    let payload = zenoh::bytes::ZBytes::from("{}");
    let first = processor
        .handle(&worker, sample, payload, 1, SchemaSource::Directory(None))
        .expect("recorded");
    assert!(matches!(first, Some(WriterCommand::Write(_, Some(_)))));
    let payload = zenoh::bytes::ZBytes::from("nonsense");
    let second = processor
        .handle(&worker, sample, payload, 2, SchemaSource::Directory(None))
        .expect("recorded");
    match second {
        Some(WriterCommand::Write(message, None)) => {
            assert_eq!(message.payload.bytes(), b"nonsense".to_vec())
        }
        _ => panic!("a message without a descriptor"),
    }
}

#[test]
fn raw_frames_reach_the_worker() {
    assert!(is_enqueued("mavlink_raw/out"));
    assert!(is_enqueued("mavlink_raw/out/1"));
    assert!(!is_enqueued("mavlink_raw/in"));
    assert!(!is_enqueued("mavlink_raw/ou"));
}

#[test]
fn times_are_cut_to_64_bits() {
    assert_eq!(log_time_of(1_700_000_000_000_000_000), 1_700_000_000_000_000_000);
    assert_eq!(log_time_of(0x1_0000_0000_0000_0005), 5);
}

#[test]
fn samples_become_commands() {
    let worker = MavlinkWorker::new();
    let mut processor = SampleProcessor {
        mcap: McapWriter::new(),
    };
    let sample = Sample {
        topic: "depth/value",
        encoding: "application/json",
        timestamp: Some(7),
    };
    let first = processor
        .handle(&worker, sample, b"{a: 1}".to_vec(), 9, SchemaSource::Directory(None))
        .expect("recorded");
    match first {
        Some(WriterCommand::Write(message, Some(descriptor))) => {
            assert_eq!(message.topic, "depth/value");
            assert_eq!(message.log_time, 9);
            assert_eq!(message.publish_time, 7);
            assert_eq!(message.payload, b"{a: 1}".to_vec());
            assert_eq!(descriptor.message_encoding, MessageEncoding::Json);
            let content = descriptor.schema.expect("schema").content.expect("content");
            assert_eq!(content.name, "depth.value");
            assert_eq!(
                content.data,
                "{\"properties\":{\"a\":{\"type\":\"integer\"}},\"type\":\"object\"}"
            );
        }
        _ => panic!("a message with a descriptor"),
    }
    let untimed = Sample {
        timestamp: None,
        ..sample
    };
    let second = processor
        .handle(&worker, untimed, vec![0u8], 11, SchemaSource::Directory(None))
        .expect("recorded");
    match second {
        Some(WriterCommand::Write(message, None)) => {
            assert_eq!(message.log_time, 11);
            assert_eq!(message.publish_time, 11);
        }
        _ => panic!("a message without a descriptor"),
    }
}

#[test]
fn samples_are_left_out() {
    let worker = MavlinkWorker::new();
    let mut processor = SampleProcessor {
        mcap: McapWriter::new(),
    };
    for (topic, encoding) in [
        ("mavlink_raw/out", "application/json"),
        ("video/Front/stream", "application/json"),
        ("depth/value", "text/plain"),
        ("depth/value", "application/cdr"),
    ] {
        let sample = Sample {
            topic,
            encoding,
            timestamp: None,
        };
        let command = processor
            .handle(&worker, sample, b"{}".to_vec(), 0, SchemaSource::Directory(None))
            .expect("no error");
        assert!(command.is_none());
    }
}

#[test]
fn received_payloads_give_their_bytes() {
    assert_eq!(
        zenoh::bytes::ZBytes::from("abc").bytes(),
        b"abc".to_vec()
    );
    assert!(zenoh::bytes::ZBytes::new().bytes().is_empty());
}
