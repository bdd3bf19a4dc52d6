use blueos_recorder::mav::camera::discoverer::{CameraDiscoverer, CameraDiscovererState};
use blueos_recorder::mav::camera::set::CameraSet;
use blueos_recorder::mav::camera::stream::{
    build_camera_capture_status, build_command_ack, camera_header, elapsed_ms,
    sanitize_stream_name, time_boot_ms, video_topic_from_name, Clock, StatusTask, TaskChange,
    VideoStream,
};
use blueos_recorder::mav::camera::watch::{self, WatchedStream};
use blueos_recorder::mav::camera::{
    field_to_text, field_to_valid_text, is_addressed_to, on_camera_information, on_command_long,
    on_heartbeat, on_video_stream_information,
};
use blueos_recorder::mav::frame::{decode_mav_message, needed_while_disarmed, Packet};
use blueos_recorder::mav::topic_gate;
use blueos_recorder::mav::vehicle::{self, ArmState, VehicleArmGate};
use blueos_recorder::mav::wire::{
    CommandLong, MavCmd, MavHeader, MavResult, MavlinkVersion, Message, CAMERA_CAPTURE_STATUS_ID,
    CAMERA_INFORMATION_ID, COMMAND_ACK_ID, COMMAND_LONG_ID, HEARTBEAT_ID,
    VIDEO_STREAM_INFORMATION_ID,
};
use blueos_recorder::mav::{
    decode, encode, encode_command_long, handle_mavlink_message, needs_checksum,
    AUTOPILOT_COMPONENT,
};
use blueos_recorder::service::SystemAndComponent;
use blueos_recorder::text_map::TextMap;
use mavlink::ardupilotmega::{
    MavMessage, CAMERA_CAPTURE_STATUS_DATA, CAMERA_INFORMATION_DATA, COMMAND_ACK_DATA,
    COMMAND_LONG_DATA, HEARTBEAT_DATA, VIDEO_STREAM_INFORMATION_DATA,
};
use mavlink::MessageData;

const CAMERA: SystemAndComponent = SystemAndComponent {
    system_id: 1,
    component_id: 100,
};

const START_ACK: [u8; 14] = [
    0xfd, 0x02, 0x00, 0x00, 0x00, 0x01, 0x64, 0x4d, 0x00, 0x00, 0xc4, 0x09, 0xc4, 0x22,
];

const STATUS_ACK: [u8; 14] = [
    0xfd, 0x02, 0x00, 0x00, 0x00, 0x01, 0x64, 0x4d, 0x00, 0x00, 0x0f, 0x02, 0x50, 0xe5,
];

const RECORDING_STATUS: [u8; 30] = [
    0xfd, 0x12, 0x00, 0x00, 0x01, 0x01, 0x64, 0x06, 0x01, 0x00, 0x88, 0x13, 0x00, 0x00, 0x00, 0x00,
    0x00, 0x00, 0xd0, 0x07, 0x00, 0x00, 0x00, 0x00, 0x00, 0x00, 0x00, 0x01, 0x34, 0x08,
];

const IDLE_STATUS: [u8; 14] = [
    0xfd, 0x02, 0x00, 0x00, 0x01, 0x01, 0x64, 0x06, 0x01, 0x00, 0x88, 0x13, 0x2e, 0x36,
];

const CAMERA_INFORMATION_REQUEST: [u8; 44] = [
    0xfd, 0x20, 0x00, 0x00, 0x00, 0xff, 0xbe, 0x4c, 0x00, 0x00, 0x00, 0x80, 0x81, 0x43, 0x00, 0x00,
    0x00, 0x00, 0x00, 0x00, 0x00, 0x00, 0x00, 0x00, 0x00, 0x00, 0x00, 0x00, 0x00, 0x00, 0x00, 0x00,
    0x00, 0x00, 0x00, 0x00, 0x00, 0x00, 0x00, 0x02, 0x01, 0x64, 0x3e, 0x38,
];

const STREAM_INFORMATION_REQUEST: [u8; 44] = [
    0xfd, 0x20, 0x00, 0x00, 0x01, 0xff, 0xbe, 0x4c, 0x00, 0x00, 0x00, 0x80, 0x86, 0x43, 0x00, 0x00,
    0x00, 0x00, 0x00, 0x00, 0x00, 0x00, 0x00, 0x00, 0x00, 0x00, 0x00, 0x00, 0x00, 0x00, 0x00, 0x00,
    0x00, 0x00, 0x00, 0x00, 0x00, 0x00, 0x00, 0x02, 0x01, 0x64, 0x7e, 0x39,
];

fn secs(n: u64) -> u64 {
    n * 1_000_000_000
}

fn clock() -> Clock {
    Clock {
        boot: secs(1),
        now: secs(6),
    }
}

fn packet(message_id: u32, component_id: u8, payload: Vec<u8>) -> Packet {
    Packet {
        version: MavlinkVersion::V2,
        message_id,
        system_id: 1,
        component_id,
        sequence: 9,
        payload,
        crc_valid: true,
    }
}

fn heartbeat(component_id: u8, base_mode: u8) -> Packet {
    packet(
        HEARTBEAT_ID,
        component_id,
        vec![0, 0, 0, 0, 2, 3, base_mode, 4, 3],
    )
}

fn command(target_system: u8, target_component: u8, command: u32) -> CommandLong {
    CommandLong {
        target_system,
        target_component,
        command,
        param2_bits: 0,
    }
}

fn stream(topic: &str, camera: SystemAndComponent) -> VideoStream {
    VideoStream::new(topic.to_string(), camera)
}

fn field(text: &[u8]) -> Vec<u8> {
    let mut bytes = text.to_vec();
    bytes.resize(32, 0);
    bytes
}

#[test]
fn is_addressed_to_honors_broadcast_zero() {
    assert!(is_addressed_to(1, 106, 1, 106));
    assert!(is_addressed_to(1, 0, 1, 106));
    assert!(is_addressed_to(0, 106, 1, 106));
    assert!(is_addressed_to(0, 0, 1, 106));
    assert!(!is_addressed_to(1, 107, 1, 106));
    assert!(!is_addressed_to(2, 106, 1, 106));
    assert!(!is_addressed_to(2, 0, 1, 106));
    assert!(!is_addressed_to(0, 107, 1, 106));
}

#[test]
fn message_numbers_are_those_of_the_dialect() {
    assert_eq!(HEARTBEAT_ID, HEARTBEAT_DATA::ID);
    assert_eq!(COMMAND_LONG_ID, COMMAND_LONG_DATA::ID);
    assert_eq!(COMMAND_ACK_ID, COMMAND_ACK_DATA::ID);
    assert_eq!(CAMERA_INFORMATION_ID, CAMERA_INFORMATION_DATA::ID);
    assert_eq!(CAMERA_CAPTURE_STATUS_ID, CAMERA_CAPTURE_STATUS_DATA::ID);
    assert_eq!(VIDEO_STREAM_INFORMATION_ID, VIDEO_STREAM_INFORMATION_DATA::ID);
    assert_eq!(
        AUTOPILOT_COMPONENT,
        mavlink::ardupilotmega::MavComponent::MAV_COMP_ID_AUTOPILOT1 as u8
    );
}

#[test]
fn command_codes() {
    assert_eq!(MavCmd::from_code(512), Some(MavCmd::RequestMessage));
    assert_eq!(
        MavCmd::from_code(527),
        Some(MavCmd::RequestCameraCaptureStatus)
    );
    assert_eq!(MavCmd::from_code(2500), Some(MavCmd::VideoStartCapture));
    assert_eq!(MavCmd::from_code(2501), Some(MavCmd::VideoStopCapture));
    assert_eq!(MavCmd::from_code(400), None);
}

#[test]
fn needed_messages() {
    for id in [0, 76, 259, 269] {
        assert!(needed_while_disarmed(id));
    }
    for id in [1, 77, 262, 270] {
        assert!(!needed_while_disarmed(id));
    }
}

#[test]
fn only_valid_autopilot_heartbeats_arm() {
    let mut gate = VehicleArmGate::new();
    assert!(!gate.is_armed());
    assert_eq!(handle_mavlink_message(None, &mut gate), None);
    assert_eq!(
        handle_mavlink_message(Some(&heartbeat(100, 0x80)), &mut gate),
        None
    );
    let mut broken = heartbeat(1, 0x80);
    broken.crc_valid = false;
    assert_eq!(handle_mavlink_message(Some(&broken), &mut gate), None);
    let other = packet(COMMAND_LONG_ID, 1, vec![0x80; 33]);
    assert_eq!(handle_mavlink_message(Some(&other), &mut gate), None);
    assert!(!gate.is_armed());
    assert!(needs_checksum(HEARTBEAT_ID, 1));
    assert!(!needs_checksum(HEARTBEAT_ID, 100));
    assert!(!needs_checksum(COMMAND_LONG_ID, 1));
    assert_eq!(
        handle_mavlink_message(Some(&heartbeat(1, 0xd1)), &mut gate),
        Some(ArmState::Armed)
    );
    assert_eq!(
        handle_mavlink_message(Some(&heartbeat(1, 0xd1)), &mut gate),
        None
    );
    assert!(gate.is_armed());
    assert_eq!(
        handle_mavlink_message(Some(&heartbeat(1, 0x51)), &mut gate),
        Some(ArmState::Disarmed)
    );
    assert!(!gate.is_armed());
}

#[test]
fn heartbeats_are_news_once() {
    let mut gate = VehicleArmGate::new();
    assert_eq!(vehicle::on_heartbeat(&mut gate, 0x7f), None);
    assert_eq!(
        vehicle::on_heartbeat(&mut gate, 0x80),
        Some(ArmState::Armed)
    );
    assert_eq!(vehicle::on_heartbeat(&mut gate, 0xff), None);
    assert_eq!(
        vehicle::on_heartbeat(&mut gate, 0),
        Some(ArmState::Disarmed)
    );
}

#[test]
fn frames_are_decoded() {
    match decode(&heartbeat(7, 0x51)) {
        Some(Message::Heartbeat { base_mode }) => assert_eq!(base_mode, 0x51),
        other => panic!("{other:?}"),
    }
    // Trailing zeros may be left out of a payload.
    let mut payload = vec![0; 31];
    payload[7] = 0x40;
    payload[28] = 0xc4;
    payload[29] = 0x09;
    payload[30] = 5;
    match decode(&packet(COMMAND_LONG_ID, 190, payload)) {
        Some(Message::CommandLong(data)) => {
            assert_eq!(data.command, 2500);
            assert_eq!(data.target_system, 5);
            assert_eq!(data.target_component, 0);
            assert_eq!(data.param2_bits, 0x4000_0000);
            assert_eq!(f32::from_bits(data.param2_bits), 2.0);
        }
        other => panic!("{other:?}"),
    }
    let mut payload = vec![0; 235];
    payload[20] = 0x03;
    match decode(&packet(CAMERA_INFORMATION_ID, 100, payload)) {
        Some(Message::CameraInformation { flags }) => assert_eq!(flags, 3),
        other => panic!("{other:?}"),
    }
    let mut payload = vec![0; 213];
    payload[18] = 1;
    payload[21] = b'a';
    payload[52] = b'z';
    match decode(&packet(VIDEO_STREAM_INFORMATION_ID, 100, payload)) {
        Some(Message::VideoStreamInformation { name }) => {
            assert_eq!(name.len(), 32);
            assert_eq!(name[0], b'a');
            assert_eq!(name[31], b'z');
        }
        other => panic!("{other:?}"),
    }
    assert!(decode(&packet(0xff_ffff, 1, vec![])).is_none());
}

#[test]
fn headers_are_decoded() {
    let (header, message) = decode_mav_message(&heartbeat(7, 0x80)).expect("a heartbeat");
    assert_eq!(
        header,
        MavHeader {
            system_id: 1,
            component_id: 7,
            sequence: 9
        }
    );
    assert!(matches!(message, MavMessage::HEARTBEAT(_)));
    assert!(decode_mav_message(&packet(0xff_ffff, 1, vec![])).is_err());
}

#[test]
fn messages_are_encoded() {
    let message = MavMessage::COMMAND_ACK(COMMAND_ACK_DATA {
        command: mavlink::ardupilotmega::MavCmd::MAV_CMD_VIDEO_START_CAPTURE,
        result: mavlink::ardupilotmega::MavResult::MAV_RESULT_ACCEPTED,
    });
    assert_eq!(
        encode(camera_header(CAMERA, 0), &message),
        START_ACK.to_vec()
    );
    assert_eq!(
        build_command_ack(CAMERA, 0, MavCmd::VideoStartCapture, MavResult::Accepted),
        START_ACK.to_vec()
    );
    let stop = build_command_ack(
        SystemAndComponent {
            system_id: 1,
            component_id: 106,
        },
        7,
        MavCmd::VideoStopCapture,
        MavResult::Accepted,
    );
    assert_eq!(
        stop,
        vec![
            0xfd, 0x02, 0x00, 0x00, 0x07, 0x01, 0x6a, 0x4d, 0x00, 0x00, 0xc5, 0x09, 0xdb, 0x17
        ]
    );
    assert_eq!(
        build_camera_capture_status(CAMERA, 1, 1, 2000, clock()),
        RECORDING_STATUS.to_vec()
    );
    assert_eq!(
        build_camera_capture_status(CAMERA, 1, 0, 0, clock()),
        IDLE_STATUS.to_vec()
    );
}

#[test]
fn requests_are_encoded() {
    let source = SystemAndComponent {
        system_id: 255,
        component_id: 190,
    };
    let mut sequence = 0;
    assert_eq!(
        encode_command_long(source, &mut sequence, CAMERA, MavCmd::RequestMessage, 259),
        CAMERA_INFORMATION_REQUEST.to_vec()
    );
    assert_eq!(sequence, 1);
    sequence = 255;
    let frame = encode_command_long(source, &mut sequence, CAMERA, MavCmd::RequestMessage, 0);
    assert_eq!(frame[4], 255);
    assert_eq!(&frame[10..14], &[0, 0, 0, 0]);
    assert_eq!(sequence, 0);
}

#[test]
fn requests_read_back() {
    let source = SystemAndComponent {
        system_id: 255,
        component_id: 190,
    };
    let mut sequence = 3;
    let frame = encode_command_long(source, &mut sequence, CAMERA, MavCmd::RequestMessage, 269);
    let payload = frame[10..frame.len() - 2].to_vec();
    match decode(&packet(COMMAND_LONG_ID, 190, payload)) {
        Some(Message::CommandLong(data)) => {
            assert_eq!(data.target_system, CAMERA.system_id);
            assert_eq!(data.target_component, CAMERA.component_id);
            assert_eq!(data.command, 512);
            assert_eq!(data.param2_bits, 0);
        }
        other => panic!("{other:?}"),
    }
}

#[test]
fn decoded_messages_are_those_that_were_encoded() {
    let attitude = MavMessage::ATTITUDE(mavlink::ardupilotmega::ATTITUDE_DATA {
        time_boot_ms: 77,
        roll: 1.5,
        yaw: -2.25,
        ..Default::default()
    });
    let header = MavHeader {
        system_id: 3,
        component_id: 4,
        sequence: 5,
    };
    let frame = encode(header, &attitude);
    assert_eq!(frame[0], 0xfd);
    assert_eq!(frame.len(), 12 + usize::from(frame[1]));
    assert_eq!(frame[4..10], [5, 3, 4, 30, 0, 0]);
    let packet = Packet {
        version: MavlinkVersion::V2,
        message_id: 30,
        system_id: 3,
        component_id: 4,
        sequence: 5,
        payload: frame[10..frame.len() - 2].to_vec(),
        crc_valid: true,
    };
    let (found, message) = decode_mav_message(&packet).expect("a message");
    assert_eq!(found, header);
    assert_eq!(message, attitude);
}

#[test]
fn sequence_numbers_go_round() {
    let mut stream = stream("video/Front/stream", CAMERA);
    for n in 0..600u32 {
        assert_eq!(u32::from(stream.next_sequence()), n % 256);
    }
    stream.sequence = 0;
    for n in 0..600u32 {
        let stopped = stream.handle_command(MavCmd::VideoStopCapture, 0, clock());
        assert_eq!(u32::from(stopped.frames[0][4]), n % 256);
    }
    assert_eq!(stream.topic, "video/Front/stream");
    assert_eq!(stream.camera, CAMERA);
}

#[test]
fn commands_are_encoded() {
    let source = SystemAndComponent {
        system_id: 255,
        component_id: 190,
    };
    let mut sequence = 0;
    for (command, code) in [
        (MavCmd::RequestMessage, 512),
        (MavCmd::RequestCameraCaptureStatus, 527),
        (MavCmd::VideoStartCapture, 2500),
        (MavCmd::VideoStopCapture, 2501),
    ] {
        let frame = encode_command_long(source, &mut sequence, CAMERA, command, 7);
        let payload = frame[10..frame.len() - 2].to_vec();
        match decode(&packet(COMMAND_LONG_ID, 190, payload)) {
            Some(Message::CommandLong(data)) => assert_eq!(data.command, code),
            other => panic!("{other:?}"),
        }
    }
    assert_eq!(sequence, 4);
}

#[test]
fn discovery_asks_each_camera() {
    let mut state = CameraDiscovererState::new();
    assert_eq!(
        state.encode_discovery_requests(CAMERA),
        vec![
            CAMERA_INFORMATION_REQUEST.to_vec(),
            STREAM_INFORMATION_REQUEST.to_vec()
        ]
    );
    assert_eq!(state.sequence, 2);

    let mut discoverer = CameraDiscoverer::new();
    assert!(discoverer.discovery_round().is_empty());
    assert_eq!(on_heartbeat(&mut discoverer, CAMERA), Some(CAMERA));
    assert_eq!(on_heartbeat(&mut discoverer, CAMERA), None);
    let other = SystemAndComponent {
        system_id: 1,
        component_id: 101,
    };
    assert!(discoverer.register_camera(other));
    assert!(!discoverer.register_camera(other));
    let round = discoverer.discovery_round();
    assert_eq!(round.len(), 4);
    for (i, frame) in round.iter().enumerate() {
        assert_eq!(usize::from(frame[4]), i);
    }
    assert_eq!(
        discoverer.request_for_camera(CAMERA)[0][4],
        4
    );
}

#[test]
fn capability_is_taken_over() {
    let mut capable = CameraSet::new();
    on_camera_information(CAMERA, 2, &mut capable);
    assert!(!capable.contains(CAMERA));
    on_camera_information(CAMERA, 1, &mut capable);
    on_camera_information(CAMERA, 0x101, &mut capable);
    assert!(capable.contains(CAMERA));
    on_camera_information(CAMERA, 0x100, &mut capable);
    assert!(!capable.contains(CAMERA));
}

#[test]
fn streams_are_registered_once() {
    let mut capable = CameraSet::new();
    let mut streams: TextMap<VideoStream> = TextMap::new();
    on_video_stream_information(CAMERA, &field(b"Front"), &capable, &mut streams);
    assert_eq!(streams.len(), 0);
    capable.insert(CAMERA);
    on_video_stream_information(CAMERA, &field(b""), &capable, &mut streams);
    on_video_stream_information(CAMERA, &field(&[0xff, 0xfe]), &capable, &mut streams);
    assert_eq!(streams.len(), 0);
    on_video_stream_information(CAMERA, &field(b"Fr o-nt"), &capable, &mut streams);
    let other = SystemAndComponent {
        system_id: 2,
        component_id: 100,
    };
    capable.insert(other);
    on_video_stream_information(other, &field(b"Front"), &capable, &mut streams);
    assert_eq!(streams.len(), 1);
    let stream = streams.get("video/Front/stream").expect("registered");
    assert_eq!(stream.topic, "video/Front/stream");
    assert_eq!(stream.camera, CAMERA);
    assert!(!stream.is_recording);
}

#[test]
fn fields_end_at_the_first_zero() {
    assert_eq!(field_to_text(&b"ab\0cd".to_vec()), "ab");
    assert_eq!(field_to_text(&b"abc".to_vec()), "abc");
    assert_eq!(field_to_text(&vec![]), "");
    assert_eq!(field_to_text(&vec![0xc3, 0xa9, 0]), "\u{e9}");
    assert_eq!(field_to_text(&vec![0xc3, 0]), "");
    assert_eq!(field_to_valid_text(&vec![0xc3, 0]), None);
    assert_eq!(field_to_valid_text(&vec![0]), Some(String::new()));
}

#[test]
fn stream_topics() {
    assert_eq!(
        video_topic_from_name("My cam/\u{e9} 1"),
        "video/Mycam1/stream"
    );
    assert_eq!(video_topic_from_name(""), "video//stream");
    let sanitized = sanitize_stream_name("a_B-9!");
    assert_eq!(sanitized, "aB9");
    assert_eq!(sanitize_stream_name(&sanitized), sanitized);
    assert_eq!(
        video_topic_from_name(&sanitized),
        video_topic_from_name("a_B-9!")
    );
}

#[test]
fn times_in_milliseconds() {
    assert_eq!(elapsed_ms(0, 1_999_999), 1);
    assert_eq!(elapsed_ms(5, 4), 0);
    assert_eq!(elapsed_ms(0, 0x1_0000_0007 * 1_000_000), 7);
    assert_eq!(time_boot_ms(clock()), 5000);
}

#[test]
fn start_stop_and_status() {
    let mut stream = stream("video/Front/stream", CAMERA);
    let started = stream.handle_command(
        MavCmd::VideoStartCapture,
        500,
        Clock {
            boot: secs(1),
            now: secs(4),
        },
    );
    assert_eq!(started.frames, vec![START_ACK.to_vec()]);
    assert_eq!(
        started.task,
        TaskChange::Start(StatusTask {
            camera: CAMERA,
            sequence: 1,
            recording_start: secs(4),
            interval_ms: 500,
        })
    );
    assert!(stream.is_recording);
    assert!(stream.has_status_task);
    assert_eq!(stream.capture_status_fields(secs(6)), (1, 2000));

    let mut idle = VideoStream::new("video/Back/stream".to_string(), CAMERA);
    let asked = idle.handle_command(MavCmd::RequestCameraCaptureStatus, 0, clock());
    assert_eq!(asked.frames, vec![STATUS_ACK.to_vec(), IDLE_STATUS.to_vec()]);
    assert_eq!(asked.task, TaskChange::Keep);
    assert_eq!(idle.sequence, 2);
    assert!(!idle.is_recording);

    let asked = stream.handle_command(MavCmd::RequestCameraCaptureStatus, 0, clock());
    assert_eq!(asked.frames.len(), 2);
    assert_eq!(asked.frames[1][10..28], RECORDING_STATUS[10..28]);

    let again = stream.handle_command(MavCmd::VideoStartCapture, 20, clock());
    match again.task {
        TaskChange::Start(task) => {
            assert_eq!(task.recording_start, secs(6));
            assert_eq!(task.interval_ms, 100);
        }
        other => panic!("{other:?}"),
    }
    assert_eq!(stream.capture_status_fields(secs(6)), (1, 0));

    let stopped = stream.handle_command(MavCmd::VideoStopCapture, 0, clock());
    assert_eq!(stopped.task, TaskChange::Stop);
    assert_eq!(stopped.frames.len(), 1);
    assert!(!stream.is_recording);
    assert_eq!(stream.recording_start, None);
    assert!(!stream.has_status_task);
    assert_eq!(stream.capture_status_fields(secs(9)), (0, 0));

    let ignored = stream.handle_command(MavCmd::RequestMessage, 0, clock());
    assert!(ignored.frames.is_empty());
}

#[test]
fn answers_are_numbered() {
    let mut stream = stream("video/Front/stream", CAMERA);
    stream.sequence = 254;
    let asked = stream.handle_command(MavCmd::RequestCameraCaptureStatus, 0, clock());
    assert_eq!(asked.frames[0][4], 254);
    assert_eq!(asked.frames[1][4], 255);
    assert_eq!(stream.sequence, 0);
}

#[test]
fn status_reports_go_on() {
    let mut task = StatusTask {
        camera: CAMERA,
        sequence: 1,
        recording_start: secs(4),
        interval_ms: 100,
    };
    assert_eq!(task.tick(clock()), RECORDING_STATUS.to_vec());
    assert_eq!(task.sequence, 2);
    task.sequence = 255;
    assert_eq!(task.tick(clock())[4], 255);
    assert_eq!(task.sequence, 0);
}

#[test]
fn commands_reach_addressed_streams() {
    let other = SystemAndComponent {
        system_id: 1,
        component_id: 101,
    };
    let mut streams: TextMap<VideoStream> = TextMap::new();
    streams.insert("a".to_string(), stream("a", CAMERA));
    streams.insert("b".to_string(), stream("b", other));

    let replies = on_command_long(&command(1, 101, 2500), 1000, &mut streams, clock());
    assert_eq!(replies.frames.len(), 1);
    assert_eq!(replies.tasks[0], TaskChange::Keep);
    assert!(matches!(replies.tasks[1], TaskChange::Start(_)));
    assert!(!streams.get("a").expect("a").is_recording);
    assert!(streams.get("b").expect("b").is_recording);

    let replies = on_command_long(&command(0, 0, 527), 1000, &mut streams, clock());
    assert_eq!(replies.frames.len(), 4);

    let replies = on_command_long(&command(1, 0, 2501), 1000, &mut streams, clock());
    assert_eq!(replies.tasks, vec![TaskChange::Stop, TaskChange::Stop]);
    assert!(!streams.get("b").expect("b").is_recording);

    for data in [command(2, 0, 2500), command(0, 0, 512), command(0, 0, 400)] {
        let replies = on_command_long(&data, 1000, &mut streams, clock());
        assert!(replies.frames.is_empty());
        assert_eq!(replies.tasks, vec![TaskChange::Keep, TaskChange::Keep]);
    }
    assert!(!streams.get("a").expect("a").is_recording);
}

#[test]
fn watched_streams() {
    let mut capable = CameraSet::new();
    let mut streams: TextMap<WatchedStream> = TextMap::new();
    watch::on_video_stream_information(CAMERA, &field(b"x"), &capable, &mut streams);
    assert_eq!(streams.len(), 0);
    capable.insert(CAMERA);
    watch::on_video_stream_information(CAMERA, &field(&[0xff]), &capable, &mut streams);
    assert_eq!(streams.len(), 0);
    watch::on_video_stream_information(CAMERA, &field(b""), &capable, &mut streams);
    watch::on_video_stream_information(CAMERA, &field(b"x"), &capable, &mut streams);
    assert_eq!(streams.len(), 2);
    assert!(streams.contains_key("video//stream"));
    assert_eq!(watch::video_stream_for_camera(&streams, CAMERA), Some(0));
    assert_eq!(
        watch::on_command_long(&command(1, 100, 2500), &streams),
        Some((0, MavCmd::VideoStartCapture))
    );
    assert_eq!(
        watch::on_command_long(&command(1, 100, 2501), &streams),
        Some((0, MavCmd::VideoStopCapture))
    );
    assert_eq!(
        watch::on_command_long(&command(1, 100, 527), &streams),
        Some((0, MavCmd::RequestCameraCaptureStatus))
    );
    assert_eq!(watch::on_command_long(&command(1, 0, 2500), &streams), None);
    assert_eq!(watch::on_command_long(&command(1, 100, 512), &streams), None);
    assert!(!streams.get("video//stream").expect("there").is_recording);
}

#[test]
fn base_mode_topics_arm() {
    let armed = b"MAV_MODE_FLAG_SAFETY_ARMED | MAV_MODE_FLAG_GUIDED_ENABLED";
    let mut gate = topic_gate::VehicleArmGate::new();
    assert!(!gate.is_armed());
    for topic in [
        "mavlink/1/2/HEARTBEAT/base_mode",
        "mavlink//1/HEARTBEAT/base_mode",
        "mavlink/x/1/HEARTBEAT/base_mode",
        "mavlink/1/1/HEARTBEAT/custom_mode",
        "",
    ] {
        assert_eq!(gate.update(topic, armed), None);
    }
    assert_eq!(
        gate.update("mavlink/12/1/HEARTBEAT/base_mode", armed),
        Some(topic_gate::ArmState::Armed)
    );
    assert_eq!(gate.update("mavlink/12/1/HEARTBEAT/base_mode", armed), None);
    assert_eq!(
        gate.update("mavlink/12/1/HEARTBEAT/base_mode", &[0xff]),
        None
    );
    assert!(gate.is_armed());
    assert_eq!(
        gate.update("a/mavlink/3/1/HEARTBEAT/base_mode/b", b"MAV_MODE_FLAG_SAFETY"),
        Some(topic_gate::ArmState::Disarmed)
    );
    assert!(!gate.is_armed());
}

#[test]
fn payload_states() {
    assert_eq!(
        topic_gate::check_payload(false, b"MAV_MODE_FLAG_SAFETY_ARMED"),
        topic_gate::ArmState::NotApplicable
    );
    assert_eq!(
        topic_gate::check_payload(true, b"x MAV_MODE_FLAG_SAFETY_ARMED"),
        topic_gate::ArmState::Armed
    );
    assert_eq!(
        topic_gate::check_payload(true, b""),
        topic_gate::ArmState::Disarmed
    );
    assert_eq!(
        topic_gate::check_payload(true, &[0x80]),
        topic_gate::ArmState::NotApplicable
    );
}
