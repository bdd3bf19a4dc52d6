//! Whether the vehicle is armed, as its heartbeats say.
use vstd::prelude::*;

verus! {

/// A change of the vehicle's state.
#[derive(Debug, Clone, Copy, PartialEq, Eq, Structural)]
pub enum ArmState {
    Armed,
    Disarmed,
}

/// Remembers whether the vehicle is armed.
pub struct VehicleArmGate {
    is_armed: bool,
}

impl View for VehicleArmGate {
    type V = bool;

    closed spec fn view(&self) -> bool {
        self.is_armed
    }
}

/// Whether a heartbeat's base mode says that the vehicle is armed.
pub open spec fn armed_mode(base_mode: u8) -> bool {
    base_mode & 0x80 == 0x80
}

/// What is reported when the state goes from `before` to `after`.
pub open spec fn change(before: bool, after: bool) -> Option<ArmState> {
    if before == after {
        None
    } else if after {
        Some(ArmState::Armed)
    } else {
        Some(ArmState::Disarmed)
    }
}

impl VehicleArmGate {
    /// A vehicle is disarmed until a heartbeat says otherwise.
    pub fn new() -> (r: Self)
        ensures
            !r@,
    {
        VehicleArmGate { is_armed: false }
    }

    /// Whether the vehicle is armed.
    pub fn is_armed(&self) -> (r: bool)
        ensures
            r == self@,
    {
        self.is_armed
    }
}

/// Takes over what a heartbeat says, and reports it if it is news.
pub fn on_heartbeat(gate: &mut VehicleArmGate, base_mode: u8) -> (r: Option<ArmState>)
    ensures
        final(gate)@ == armed_mode(base_mode),
        final(gate)@ <==> base_mode >= 128,
        r == change(old(gate)@, final(gate)@),
{
    proof {
        lemma_armed_flag(base_mode);
    }
    let armed = base_mode & 0x80 == 0x80;
    match (armed, gate.is_armed) {
        (true, false) => {
            gate.is_armed = true;
            Some(ArmState::Armed)
        },
        (false, true) => {
            gate.is_armed = false;
            Some(ArmState::Disarmed)
        },
        _ => None,
    }
}

/// A heartbeat that repeats the last one is never news.
pub proof fn lemma_repeated_heartbeat(before: bool, base_mode: u8)
    ensures
        change(armed_mode(base_mode), armed_mode(base_mode)) is None,
        change(before, armed_mode(base_mode)) is None <==> before == armed_mode(base_mode),
{
}

/// A heartbeat says armed exactly if the highest bit of its base mode, the safety-armed flag, is
/// set: if the base mode is at least 128. No other flag matters.
pub proof fn lemma_armed_flag(base_mode: u8)
    ensures
        armed_mode(base_mode) <==> base_mode >= 128,
{
    assert(base_mode & 0x80 == 0x80 <==> base_mode >= 128) by (bit_vector);
}

/// Two base modes that agree on the safety-armed flag leave the same state, whatever their other
/// flags are.
pub proof fn lemma_other_flags_do_not_matter(first: u8, second: u8)
    requires
        first / 128 == second / 128,
    ensures
        armed_mode(first) == armed_mode(second),
{
    lemma_armed_flag(first);
    lemma_armed_flag(second);
}

/// What is reported is the state that the vehicle is in now, and it is reported exactly if it was
/// in the other one.
pub proof fn lemma_changes_are_reported(before: bool, after: bool)
    ensures
        change(before, after) == Some(ArmState::Armed) <==> !before && after,
        change(before, after) == Some(ArmState::Disarmed) <==> before && !after,
        change(before, after) is None <==> before == after,
{
}

/// After a heartbeat the vehicle counts as armed exactly if the heartbeat's base mode is 128 or
/// more, and a change, and nothing else, is reported.
pub proof fn lemma_heartbeat_arms(gate: &mut VehicleArmGate, base_mode: u8, r: Option<ArmState>)
    requires
        call_ensures(on_heartbeat, (gate, base_mode), r),
    ensures
        final(gate)@ <==> base_mode >= 128,
        r == Some(ArmState::Armed) <==> !old(gate)@ && base_mode >= 128,
        r == Some(ArmState::Disarmed) <==> old(gate)@ && base_mode < 128,
        r is None <==> (old(gate)@ <==> base_mode >= 128),
{
    lemma_armed_flag(base_mode);
}

/// A vehicle that nothing is known of is disarmed.
pub proof fn lemma_disarmed_at_first(gate: VehicleArmGate, r: bool)
    requires
        call_ensures(VehicleArmGate::new, (), gate),
        call_ensures(VehicleArmGate::is_armed, (&gate,), r),
    ensures
        !r,
{
}

} // verus!
