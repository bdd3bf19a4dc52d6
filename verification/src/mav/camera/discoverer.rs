//! Asking cameras what they are and which streams they have.
use vstd::prelude::*;

use crate::mav::camera::set::CameraSet;
use crate::mav::encode_command_long;
use crate::mav::wire::MavCmd;
use crate::service::SystemAndComponent;

verus! {

/// The kinds of message that cameras are asked for.
pub const CAMERA_INFORMATION: u16 = 259;

pub const VIDEO_STREAM_INFORMATION: u16 = 269;

/// The cameras that were heard of, and the sender in whose name they are asked.
#[derive(Debug)]
pub struct CameraDiscovererState {
    pub cameras: CameraSet,
    pub source: SystemAndComponent,
    pub sequence: u8,
}

/// The two frames that ask a camera about itself and about its streams.
pub open spec fn discovery_frames(
    source: SystemAndComponent,
    sequence: u8,
    camera: SystemAndComponent,
) -> Seq<Seq<u8>> {
    seq![
        crate::mav::request_frame(source, sequence, camera, CAMERA_INFORMATION),
        crate::mav::request_frame(
            source,
            crate::mav::next_in_sequence(sequence),
            camera,
            VIDEO_STREAM_INFORMATION,
        ),
    ]
}

/// The sequence number after a camera was asked.
pub open spec fn after_request(sequence: u8) -> u8 {
    crate::mav::next_in_sequence(crate::mav::next_in_sequence(sequence))
}

/// The sequence number after the first `n` cameras were asked.
pub open spec fn after_requests(sequence: u8, n: nat) -> u8
    decreases n,
{
    if n == 0 {
        sequence
    } else {
        after_request(after_requests(sequence, (n - 1) as nat))
    }
}

/// The frames that ask the first `n` cameras, in order.
pub open spec fn round_frames(
    source: SystemAndComponent,
    sequence: u8,
    cameras: Seq<SystemAndComponent>,
    n: nat,
) -> Seq<Seq<u8>>
    decreases n,
{
    if n == 0 {
        seq![]
    } else {
        round_frames(source, sequence, cameras, (n - 1) as nat) + discovery_frames(
            source,
            after_requests(sequence, (n - 1) as nat),
            cameras[n - 1],
        )
    }
}

impl CameraDiscovererState {
    /// The set of cameras is in order.
    pub open spec fn wf(&self) -> bool {
        self.cameras.wf()
    }

    /// No camera was heard of yet. Cameras are asked in the name of a ground station.
    pub fn new() -> (r: Self)
        ensures
            r.wf(),
            r.cameras@ == Set::<SystemAndComponent>::empty(),
            r.source == (SystemAndComponent { system_id: 255, component_id: 190 }),
            r.sequence == 0,
    {
        CameraDiscovererState {
            cameras: CameraSet::new(),
            source: SystemAndComponent { system_id: 255, component_id: 190 },
            sequence: 0,
        }
    }

    /// The two frames that ask `camera` about itself and about its streams.
    pub fn encode_discovery_requests(&mut self, camera: SystemAndComponent) -> (r: Vec<Vec<u8>>)
        ensures
            crate::mav::camera::stream::frames_view(r@) == discovery_frames(
                old(self).source,
                old(self).sequence,
                camera,
            ),
            *final(self) == (CameraDiscovererState {
                sequence: after_request(old(self).sequence),
                ..*old(self)
            }),
    {
        let mut sequence: u8 = self.sequence;
        let information = encode_command_long(
            self.source,
            &mut sequence,
            camera,
            MavCmd::RequestMessage,
            CAMERA_INFORMATION,
        );
        let streams = encode_command_long(
            self.source,
            &mut sequence,
            camera,
            MavCmd::RequestMessage,
            VIDEO_STREAM_INFORMATION,
        );
        self.sequence = sequence;
        let mut frames: Vec<Vec<u8>> = Vec::new();
        frames.push(information);
        frames.push(streams);
        assert(crate::mav::camera::stream::frames_view(frames@) =~= discovery_frames(
            old(self).source,
            old(self).sequence,
            camera,
        ));
        frames
    }
}

/// Finds cameras.
#[derive(Debug)]
pub struct CameraDiscoverer {
    pub state: CameraDiscovererState,
}

impl CameraDiscoverer {
    /// No camera was heard of yet.
    pub fn new() -> (r: Self)
        ensures
            r.state.wf(),
            r.state.cameras@ == Set::<SystemAndComponent>::empty(),
            r.state.source == (SystemAndComponent { system_id: 255, component_id: 190 }),
            r.state.sequence == 0,
    {
        CameraDiscoverer { state: CameraDiscovererState::new() }
    }

    /// The frames that ask `camera` about itself and about its streams.
    pub fn request_for_camera(&mut self, camera: SystemAndComponent) -> (r: Vec<Vec<u8>>)
        ensures
            crate::mav::camera::stream::frames_view(r@) == discovery_frames(
                old(self).state.source,
                old(self).state.sequence,
                camera,
            ),
            final(self).state == (CameraDiscovererState {
                sequence: after_request(old(self).state.sequence),
                ..old(self).state
            }),
    {
        self.state.encode_discovery_requests(camera)
    }

    /// Adds `camera` to those that are asked; tells whether it is new.
    pub fn register_camera(&mut self, camera: SystemAndComponent) -> (r: bool)
        requires
            old(self).state.wf(),
        ensures
            final(self).state.wf(),
            r == !old(self).state.cameras@.contains(camera),
            final(self).state.cameras@ == old(self).state.cameras@.insert(camera),
            final(self).state.source == old(self).state.source,
            final(self).state.sequence == old(self).state.sequence,
    {
        self.state.cameras.insert(camera)
    }

    /// One round of asking: the frames for every camera, in the order in which they were heard of.
    pub fn discovery_round(&mut self) -> (r: Vec<Vec<u8>>)
        ensures
            crate::mav::camera::stream::frames_view(r@) == round_frames(
                old(self).state.source,
                old(self).state.sequence,
                old(self).state.cameras.members@,
                old(self).state.cameras.members@.len(),
            ),
            final(self).state == (CameraDiscovererState {
                sequence: after_requests(
                    old(self).state.sequence,
                    old(self).state.cameras.members@.len(),
                ),
                ..old(self).state
            }),
    {
        let ghost start = self.state;
        let mut frames: Vec<Vec<u8>> = Vec::new();
        let mut i: usize = 0;
        assert(crate::mav::camera::stream::frames_view(frames@) =~= seq![]);
        while i < self.state.cameras.members.len()
            invariant
                i <= start.cameras.members@.len(),
                self.state == (CameraDiscovererState {
                    sequence: after_requests(start.sequence, i as nat),
                    ..start
                }),
                crate::mav::camera::stream::frames_view(frames@) == round_frames(
                    start.source,
                    start.sequence,
                    start.cameras.members@,
                    i as nat,
                ),
            decreases start.cameras.members@.len() - i,
        {
            let camera = self.state.cameras.members[i];
            let mut requests = self.request_for_camera(camera);
            let ghost before = frames@;
            let ghost added = requests@;
            frames.append(&mut requests);
            assert(crate::mav::camera::stream::frames_view(frames@)
                =~= crate::mav::camera::stream::frames_view(before)
                + crate::mav::camera::stream::frames_view(added));
            i = i + 1;
        }
        frames
    }
}

/// A round asks every camera twice and moves the sequence on once for each frame.
pub proof fn lemma_round(
    source: SystemAndComponent,
    sequence: u8,
    cameras: Seq<SystemAndComponent>,
    n: nat,
)
    ensures
        round_frames(source, sequence, cameras, n).len() == 2 * n,
        after_requests(sequence, n) == (sequence + 2 * n) % 256,
    decreases n,
{
    if n > 0 {
        lemma_round(source, sequence, cameras, (n - 1) as nat);
    }
}

/// In a round the frames for a camera stand together, in order of the cameras, and are numbered
/// without a gap.
pub proof fn lemma_round_frame(
    source: SystemAndComponent,
    sequence: u8,
    cameras: Seq<SystemAndComponent>,
    n: nat,
    i: int,
)
    requires
        0 <= i < n,
    ensures
        round_frames(source, sequence, cameras, n)[2 * i] == crate::mav::request_frame(
            source,
            ((sequence + 2 * i) % 256) as u8,
            cameras[i],
            CAMERA_INFORMATION,
        ),
        round_frames(source, sequence, cameras, n)[2 * i + 1] == crate::mav::request_frame(
            source,
            ((sequence + 2 * i + 1) % 256) as u8,
            cameras[i],
            VIDEO_STREAM_INFORMATION,
        ),
    decreases n,
{
    lemma_round(source, sequence, cameras, (n - 1) as nat);
    if i < n - 1 {
        lemma_round_frame(source, sequence, cameras, (n - 1) as nat, i);
    }
}

/// A camera is asked with two frames in a row, in the name of the source: for the messages 259,
/// which tells of the camera, and 269, which tells of its streams. Both are for that camera alone.
pub proof fn lemma_discovery_frames(
    source: SystemAndComponent,
    sequence: u8,
    camera: SystemAndComponent,
    k: int,
)
    requires
        0 <= k < 2,
    ensures
        ({
            let frames = discovery_frames(source, sequence, camera);
            let payload = frames[k].subrange(10, 10 + frames[k][1] as int);
            &&& frames.len() == 2
            &&& frames[k][4] == (sequence + k) % 256
            &&& frames[k][5] == source.system_id
            &&& frames[k][6] == source.component_id
            &&& frames[k][7] + 256 * frames[k][8] + 65536 * frames[k][9] == 76
            &&& crate::mav::wire::u32_at(payload, 0) == crate::mav::wire::float_bits(
                if k == 0 {
                    259u16
                } else {
                    269u16
                },
            )
            &&& crate::mav::wire::u16_at(payload, 28) == 512
            &&& crate::mav::wire::byte_at(payload, 30) == camera.system_id
            &&& crate::mav::wire::byte_at(payload, 31) == camera.component_id
            &&& after_request(sequence) == (sequence + 2) % 256
        }),
{
    let number = (if k == 0 {
        sequence
    } else {
        crate::mav::next_in_sequence(sequence)
    });
    let id = (if k == 0 {
        CAMERA_INFORMATION
    } else {
        VIDEO_STREAM_INFORMATION
    });
    crate::mav::lemma_command_frame(source, number, camera, MavCmd::RequestMessage, id);
}

/// The recorder asks in the name of system 255, component 190, and its numbers begin at 0; at first
/// there is nobody to ask.
pub proof fn lemma_discovery_begins(r: CameraDiscoverer, camera: SystemAndComponent)
    requires
        call_ensures(CameraDiscoverer::new, (), r),
    ensures
        r.state.source.system_id == 255,
        r.state.source.component_id == 190,
        r.state.sequence == 0,
        !r.state.cameras@.contains(camera),
{
}

/// A camera is asked with two frames in a row, first for its description and then for its streams.
pub proof fn lemma_cameras_are_asked(
    discoverer: &mut CameraDiscoverer,
    camera: SystemAndComponent,
    r: Vec<Vec<u8>>,
    k: int,
)
    requires
        call_ensures(CameraDiscoverer::request_for_camera, (discoverer, camera), r),
        0 <= k < 2,
    ensures
        r@.len() == 2,
        final(discoverer).state.sequence == (old(discoverer).state.sequence + 2) % 256,
        final(discoverer).state.cameras == old(discoverer).state.cameras,
        ({
            let frame = r@[k]@;
            let payload = frame.subrange(10, 10 + frame[1] as int);
            &&& frame[4] == (old(discoverer).state.sequence + k) % 256
            &&& frame[5] == old(discoverer).state.source.system_id
            &&& frame[6] == old(discoverer).state.source.component_id
            &&& crate::mav::wire::u16_at(payload, 28) == 512
            &&& crate::mav::wire::u32_at(payload, 0) == crate::mav::wire::float_bits(
                if k == 0 {
                    259u16
                } else {
                    269u16
                },
            )
            &&& crate::mav::wire::byte_at(payload, 30) == camera.system_id
            &&& crate::mav::wire::byte_at(payload, 31) == camera.component_id
        }),
{
    let frames = crate::mav::camera::stream::frames_view(r@);
    lemma_discovery_frames(old(discoverer).state.source, old(discoverer).state.sequence, camera, k);
    assert(frames.len() == r@.len());
    assert(frames[k] == r@[k]@);
}

/// A component is registered once.
pub proof fn lemma_registered_once(
    discoverer: &mut CameraDiscoverer,
    camera: SystemAndComponent,
    r: bool,
    other: SystemAndComponent,
)
    requires
        call_ensures(CameraDiscoverer::register_camera, (discoverer, camera), r),
    ensures
        r <==> !old(discoverer).state.cameras@.contains(camera),
        final(discoverer).state.cameras@.contains(camera),
        other != camera ==> (final(discoverer).state.cameras@.contains(other) <==> old(
            discoverer,
        ).state.cameras@.contains(other)),
        final(discoverer).state.sequence == old(discoverer).state.sequence,
{
}

/// In a round every known camera is asked, each with two frames.
pub proof fn lemma_rounds_ask_all(discoverer: &mut CameraDiscoverer, r: Vec<Vec<u8>>, i: int)
    requires
        call_ensures(CameraDiscoverer::discovery_round, (discoverer,), r),
        0 <= i < old(discoverer).state.cameras.members@.len(),
    ensures
        r@.len() == 2 * old(discoverer).state.cameras.members@.len(),
        final(discoverer).state.cameras == old(discoverer).state.cameras,
        final(discoverer).state.sequence == (old(discoverer).state.sequence + r@.len()) % 256,
        ({
            let camera = old(discoverer).state.cameras.members@[i];
            let first = r@[2 * i]@;
            let second = r@[2 * i + 1]@;
            let asked = first.subrange(10, 10 + first[1] as int);
            let asked_again = second.subrange(10, 10 + second[1] as int);
            &&& crate::mav::wire::u32_at(asked, 0) == crate::mav::wire::float_bits(259)
            &&& crate::mav::wire::u32_at(asked_again, 0) == crate::mav::wire::float_bits(269)
            &&& crate::mav::wire::byte_at(asked, 30) == camera.system_id
            &&& crate::mav::wire::byte_at(asked, 31) == camera.component_id
            &&& crate::mav::wire::byte_at(asked_again, 30) == camera.system_id
            &&& crate::mav::wire::byte_at(asked_again, 31) == camera.component_id
        }),
{
    let source = old(discoverer).state.source;
    let sequence = old(discoverer).state.sequence;
    let members = old(discoverer).state.cameras.members@;
    let frames = crate::mav::camera::stream::frames_view(r@);
    lemma_round(source, sequence, members, members.len());
    lemma_round_frame(source, sequence, members, members.len(), i);
    assert(frames.len() == r@.len());
    assert(frames[2 * i] == r@[2 * i]@);
    assert(frames[2 * i + 1] == r@[2 * i + 1]@);
    crate::mav::lemma_command_frame(
        source,
        ((sequence + 2 * i) % 256) as u8,
        members[i],
        MavCmd::RequestMessage,
        259,
    );
    crate::mav::lemma_command_frame(
        source,
        ((sequence + 2 * i + 1) % 256) as u8,
        members[i],
        MavCmd::RequestMessage,
        269,
    );
}

} // verus!
