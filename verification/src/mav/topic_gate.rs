//! Whether the vehicle is armed, as the topic of its base mode says.
use vstd::prelude::*;

use crate::text::{contains_text, utf8_text};

verus! {

/// What a sample says of the vehicle's state.
#[derive(Debug, Clone, Copy, PartialEq, Eq, Structural)]
pub enum ArmState {
    NotApplicable,
    Armed,
    Disarmed,
}

/// A compiled regular expression.
#[verifier::external_type_specification]
#[verifier::external_body]
pub struct ExRegex(regex::Regex);

/// The pattern that a regular expression was compiled from.
pub uninterp spec fn regex_pattern(expression: regex::Regex) -> Seq<char>;

/// Whether `regex::Regex::is_match` finds a pattern in a text.
pub uninterp spec fn regex_matches(pattern: Seq<char>, text: Seq<char>) -> bool;

/// The pattern of the topics that carry an autopilot's base mode.
pub const BASE_MODE_PATTERN: &'static str = "mavlink/\\d+/1/HEARTBEAT/base_mode";

/// `text` holds `mavlink/`, at least one digit and `/1/HEARTBEAT/base_mode`, in a row from
/// index `i` on; the digits end before index `j`.
pub open spec fn base_mode_topic_at(text: Seq<char>, i: int, j: int) -> bool {
    &&& crate::text::occurs_at(text, "mavlink/"@, i)
    &&& i + 8 < j
    &&& forall|k: int| i + 8 <= k < j ==> '0' <= #[trigger] text[k] <= '9'
    &&& crate::text::occurs_at(text, "/1/HEARTBEAT/base_mode"@, j)
}

/// `text` holds the topic of an autopilot's base mode.
pub open spec fn is_base_mode_topic(text: Seq<char>) -> bool {
    exists|i: int, j: int| base_mode_topic_at(text, i, j)
}

/// `regex::Regex::new` compiles the base mode pattern, which is a valid one.
#[verifier::external_body]
fn compile(pattern: &str) -> (r: regex::Regex)
    requires
        pattern@ == BASE_MODE_PATTERN@,
    ensures
        regex_pattern(r) == pattern@,
{
    regex::Regex::new(pattern).expect("valid heartbeat base_mode regex")
}

/// `regex::Regex::is_match` searches a text for the pattern. Of texts in ASCII it is stated what
/// the base mode pattern finds in them; its `\d` finds digits of other scripts too.
#[verifier::external_body]
fn is_match(expression: &regex::Regex, text: &str) -> (r: bool)
    ensures
        r == regex_matches(regex_pattern(*expression), text@),
        regex_pattern(*expression) == BASE_MODE_PATTERN@ && text.is_ascii() ==> r
            == is_base_mode_topic(text@),
{
    expression.is_match(text)
}

/// What a payload on the topic of a base mode says.
pub open spec fn payload_state(payload: Seq<u8>) -> ArmState {
    match crate::text::utf8_decoded(payload) {
        Some(text) => if crate::text::occurs_in(text, "MAV_MODE_FLAG_SAFETY_ARMED"@) {
            ArmState::Armed
        } else {
            ArmState::Disarmed
        },
        None => ArmState::NotApplicable,
    }
}

/// What a sample says, given whether its topic is that of a base mode.
pub open spec fn sample_state(matched: bool, payload: Seq<u8>) -> ArmState {
    if matched {
        payload_state(payload)
    } else {
        ArmState::NotApplicable
    }
}

/// Whether the vehicle is armed after a sample that says `state`.
pub open spec fn armed_after(armed: bool, state: ArmState) -> bool {
    match state {
        ArmState::Armed => true,
        ArmState::Disarmed => false,
        ArmState::NotApplicable => armed,
    }
}

/// What a sample says, given whether its topic is that of a base mode.
pub fn check_payload(matched: bool, payload: &[u8]) -> (r: ArmState)
    ensures
        r == sample_state(matched, payload@),
{
    if !matched {
        return ArmState::NotApplicable;
    }
    match utf8_text(payload) {
        None => ArmState::NotApplicable,
        Some(text) => if contains_text(text.as_str(), "MAV_MODE_FLAG_SAFETY_ARMED") {
            ArmState::Armed
        } else {
            ArmState::Disarmed
        },
    }
}

/// Remembers whether the vehicle is armed.
pub struct VehicleArmGate {
    is_armed: bool,
    base_mode_regex: regex::Regex,
}

impl View for VehicleArmGate {
    type V = bool;

    closed spec fn view(&self) -> bool {
        self.is_armed
    }
}

impl VehicleArmGate {
    /// Topics are searched for the base mode pattern.
    pub closed spec fn wf(&self) -> bool {
        regex_pattern(self.base_mode_regex) == BASE_MODE_PATTERN@
    }

    /// A vehicle is disarmed until a sample says otherwise.
    pub fn new() -> (r: Self)
        ensures
            r.wf(),
            !r@,
    {
        VehicleArmGate { is_armed: false, base_mode_regex: compile(BASE_MODE_PATTERN) }
    }

    /// Whether the vehicle is armed.
    pub fn is_armed(&self) -> (r: bool)
        ensures
            r == self@,
    {
        self.is_armed
    }

    /// Takes over what a sample says. Returns `Some` only when the armed state changes.
    pub fn update(&mut self, topic: &str, payload: &[u8]) -> (r: Option<ArmState>)
        requires
            old(self).wf(),
        ensures
            final(self).wf(),
            final(self)@ == armed_after(
                old(self)@,
                sample_state(regex_matches(BASE_MODE_PATTERN@, topic@), payload@),
            ),
            topic.is_ascii() ==> final(self)@ == armed_after(
                old(self)@,
                sample_state(is_base_mode_topic(topic@), payload@),
            ),
            match r {
                Some(state) => final(self)@ != old(self)@ && state == (if final(self)@ {
                    ArmState::Armed
                } else {
                    ArmState::Disarmed
                }),
                None => final(self)@ == old(self)@,
            },
    {
        match self.check(topic, payload) {
            ArmState::Armed => {
                if self.is_armed {
                    None
                } else {
                    self.is_armed = true;
                    Some(ArmState::Armed)
                }
            },
            ArmState::Disarmed => {
                if self.is_armed {
                    self.is_armed = false;
                    Some(ArmState::Disarmed)
                } else {
                    None
                }
            },
            ArmState::NotApplicable => None,
        }
    }

    fn check(&self, topic: &str, payload: &[u8]) -> (r: ArmState)
        requires
            self.wf(),
        ensures
            r == sample_state(regex_matches(BASE_MODE_PATTERN@, topic@), payload@),
            topic.is_ascii() ==> r == sample_state(is_base_mode_topic(topic@), payload@),
    {
        check_payload(is_match(&self.base_mode_regex, topic), payload)
    }
}

/// A payload that holds the safety-armed flag anywhere in its text says armed; a text without it
/// says disarmed; bytes that are no text say nothing.
pub proof fn lemma_payload_says(payload: Seq<u8>, before: Seq<char>, after: Seq<char>)
    ensures
        !vstd::utf8::valid_utf8(payload) ==> payload_state(payload) == ArmState::NotApplicable,
        vstd::utf8::valid_utf8(payload) && vstd::utf8::decode_utf8(payload) == before
            + "MAV_MODE_FLAG_SAFETY_ARMED"@ + after ==> payload_state(payload) == ArmState::Armed,
        vstd::utf8::valid_utf8(payload) && (forall|i: int|
            0 <= i <= vstd::utf8::decode_utf8(payload).len() - "MAV_MODE_FLAG_SAFETY_ARMED"@.len()
                ==> #[trigger] vstd::utf8::decode_utf8(payload).subrange(
                i,
                i + "MAV_MODE_FLAG_SAFETY_ARMED"@.len(),
            ) != "MAV_MODE_FLAG_SAFETY_ARMED"@) ==> payload_state(payload) == ArmState::Disarmed,
{
    let flag = "MAV_MODE_FLAG_SAFETY_ARMED"@;
    let text = vstd::utf8::decode_utf8(payload);
    if text == before + flag + after {
        let i = before.len() as int;
        assert(text.subrange(i, i + flag.len()) =~= flag);
        assert(crate::text::occurs_at(text, flag, i));
    }
}

/// Only samples on the topic of the base mode matter; there, the payload decides, and the state
/// before does not matter.
pub proof fn lemma_base_mode_decides(armed: bool, payload: Seq<u8>)
    ensures
        armed_after(armed, sample_state(false, payload)) == armed,
        payload_state(payload) == ArmState::Armed ==> armed_after(
            armed,
            sample_state(true, payload),
        ),
        payload_state(payload) == ArmState::Disarmed ==> !armed_after(
            armed,
            sample_state(true, payload),
        ),
        payload_state(payload) == ArmState::NotApplicable ==> armed_after(
            armed,
            sample_state(true, payload),
        ) == armed,
{
}

/// The topic of the base mode of any system's autopilot counts, also as a part of a longer topic.
pub proof fn lemma_base_mode_topics(before: Seq<char>, digits: Seq<char>, after: Seq<char>)
    requires
        digits.len() > 0,
        forall|i: int| 0 <= i < digits.len() ==> '0' <= #[trigger] digits[i] <= '9',
    ensures
        is_base_mode_topic(
            before + "mavlink/"@ + digits + "/1/HEARTBEAT/base_mode"@ + after,
        ),
{
    reveal_strlit("mavlink/");
    let head = "mavlink/"@;
    let tail = "/1/HEARTBEAT/base_mode"@;
    let topic = before + head + digits + tail + after;
    let i = before.len() as int;
    let j = i + 8 + digits.len();
    assert(topic.subrange(i, i + head.len()) =~= head);
    assert(topic.subrange(j, j + tail.len()) =~= tail);
    assert forall|k: int| i + 8 <= k < j implies '0' <= #[trigger] topic[k] <= '9' by {
        assert(topic[k] == digits[k - i - 8]);
    }
    assert(base_mode_topic_at(topic, i, j));
}

/// A sample arms or disarms the vehicle only on the topic of a base mode, by whether its text holds
/// the flag; a change, and nothing else, is reported.
pub proof fn lemma_samples_arm(
    gate: &mut VehicleArmGate,
    topic: &str,
    payload: &[u8],
    r: Option<ArmState>,
    before: Seq<char>,
    after: Seq<char>,
)
    requires
        call_ensures(VehicleArmGate::update, (gate, topic, payload), r),
        topic.is_ascii(),
    ensures
        !is_base_mode_topic(topic@) || !vstd::utf8::valid_utf8(payload@) ==> final(gate)@ == old(
            gate,
        )@,
        is_base_mode_topic(topic@) && vstd::utf8::valid_utf8(payload@)
            && vstd::utf8::decode_utf8(payload@) == before + "MAV_MODE_FLAG_SAFETY_ARMED"@ + after
            ==> final(gate)@,
        is_base_mode_topic(topic@) && vstd::utf8::valid_utf8(payload@) && (forall|i: int|
            0 <= i <= vstd::utf8::decode_utf8(payload@).len() - "MAV_MODE_FLAG_SAFETY_ARMED"@.len()
                ==> #[trigger] vstd::utf8::decode_utf8(payload@).subrange(
                i,
                i + "MAV_MODE_FLAG_SAFETY_ARMED"@.len(),
            ) != "MAV_MODE_FLAG_SAFETY_ARMED"@) ==> !final(gate)@,
        r == Some(ArmState::Armed) <==> !old(gate)@ && final(gate)@,
        r == Some(ArmState::Disarmed) <==> old(gate)@ && !final(gate)@,
        r is None <==> old(gate)@ == final(gate)@,
{
    lemma_payload_says(payload@, before, after);
    lemma_base_mode_decides(old(gate)@, payload@);
}

/// The topic of a base mode holds the name of the traffic, digits and the name of the field, in a
/// row.
pub proof fn lemma_no_other_topics(topic: Seq<char>)
    requires
        is_base_mode_topic(topic),
    ensures
        exists|before: Seq<char>, digits: Seq<char>, after: Seq<char>|
            {
                &&& digits.len() > 0
                &&& forall|i: int| 0 <= i < digits.len() ==> '0' <= #[trigger] digits[i] <= '9'
                &&& topic == #[trigger] (before + "mavlink/"@ + digits + "/1/HEARTBEAT/base_mode"@
                    + after)
            },
{
    reveal_strlit("mavlink/");
    reveal_strlit("/1/HEARTBEAT/base_mode");
    let (i, j) = choose|i: int, j: int| base_mode_topic_at(topic, i, j);
    let digits = topic.subrange(i + 8, j);
    let before = topic.take(i);
    let after = topic.skip(j + "/1/HEARTBEAT/base_mode"@.len());
    assert(topic.subrange(i, i + 8) == "mavlink/"@);
    assert(topic =~= (before + "mavlink/"@ + digits + "/1/HEARTBEAT/base_mode"@ + after)) by {
        assert(topic =~= topic.take(i) + topic.subrange(i, i + 8) + topic.subrange(i + 8, j)
            + topic.subrange(j, j + "/1/HEARTBEAT/base_mode"@.len()) + topic.skip(
            j + "/1/HEARTBEAT/base_mode"@.len(),
        ));
    }
}

/// A vehicle that nothing is known of is disarmed.
pub proof fn lemma_disarmed_at_first(gate: VehicleArmGate, r: bool)
    requires
        call_ensures(VehicleArmGate::new, (), gate),
        call_ensures(VehicleArmGate::is_armed, (&gate,), r),
    ensures
        !r,
{
}

/// A payload says something only on the topic of a base mode.
pub proof fn lemma_payloads_elsewhere(payload: &[u8], r: ArmState)
    requires
        call_ensures(check_payload, (false, payload), r),
    ensures
        r == ArmState::NotApplicable,
{
}

} // verus!
