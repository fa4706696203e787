//! Player movement records shared with the engine's `pmove`, and the game's
//! part of a client's think: prepare the state, let the engine move it, keep
//! what the engine returns.

use vstd::prelude::*;

verus! {

/// Movement type of a player that walks, jumps and collides normally.
pub const PM_NORMAL: i32 = 0;

/// Gravity that every thinking client is given before it is moved.
pub const DEFAULT_GRAVITY: i16 = 800;

/// Content flag of solid brushes.
pub const CONTENTS_SOLID: i32 = 1;

/// Content flag of windows.
pub const CONTENTS_WINDOW: i32 = 2;

/// Content flag of brushes that block players only.
pub const CONTENTS_PLAYERCLIP: i32 = 0x10000;

/// Content flag of monsters and other players.
pub const CONTENTS_MONSTER: i32 = 0x2000000;

/// The contents a moving player collides with.
pub const MASK_PLAYERSOLID: i32 = CONTENTS_SOLID | CONTENTS_WINDOW | CONTENTS_PLAYERCLIP
    | CONTENTS_MONSTER;

/// One usercmd: the input of a client for one movement frame.
#[derive(Clone, Copy, Debug, PartialEq, Eq, Default)]
pub struct UserCmd {
    pub msec: u8,
    pub buttons: u8,
    pub angles: [i16; 3],
    pub forwardmove: i16,
    pub sidemove: i16,
    pub upmove: i16,
    pub impulse: u8,
    pub lightlevel: u8,
}

/// The part of a player's state that the engine's movement code reads and
/// writes, in the engine's fixed-point units.
#[derive(Clone, Copy, Debug, PartialEq, Eq, Default)]
pub struct PMoveState {
    pub pm_type: i32,
    pub origin: [i16; 3],
    pub velocity: [i16; 3],
    pub pm_flags: u8,
    pub pm_time: u8,
    pub gravity: i16,
    pub delta_angles: [i16; 3],
}

/// The integer part of one movement request to the engine: the state to
/// move, the command to apply, and the counters the engine fills in. The
/// float vectors, the touch list and the collision callbacks of the
/// engine's record are attached where the engine is called.
#[derive(Clone, Copy, Debug, PartialEq, Eq)]
pub struct PMove {
    pub s: PMoveState,
    pub cmd: UserCmd,
    pub snapinitial: i32,
    pub numtouch: i32,
    pub watertype: i32,
    pub waterlevel: i32,
}

impl PMoveState {
    /// `self` in normal movement under the default gravity, all else kept.
    pub open spec fn prepared(self) -> PMoveState {
        PMoveState { pm_type: PM_NORMAL, gravity: DEFAULT_GRAVITY, ..self }
    }

    /// Puts the state in normal movement under the default gravity, as every
    /// client is before it is moved; nothing else changes.
    pub fn prepare_for_think(&mut self)
        ensures
            *final(self) == old(self).prepared(),
            final(self).pm_type == PM_NORMAL,
            final(self).gravity == DEFAULT_GRAVITY,
            final(self).origin == old(self).origin,
            final(self).velocity == old(self).velocity,
            final(self).pm_flags == old(self).pm_flags,
            final(self).pm_time == old(self).pm_time,
            final(self).delta_angles == old(self).delta_angles,
    {
        self.pm_type = PM_NORMAL;
        self.gravity = DEFAULT_GRAVITY;
    }
}

impl PMove {
    /// The request to move `state` by `cmd`, with every counter zero.
    pub open spec fn spec_new(state: PMoveState, cmd: UserCmd) -> PMove {
        PMove { s: state, cmd, snapinitial: 0, numtouch: 0, watertype: 0, waterlevel: 0 }
    }

    /// A request to move a copy of `state` by a copy of `cmd`, with every
    /// counter zero.
    pub fn new(state: &PMoveState, cmd: &UserCmd) -> (pm: PMove)
        ensures
            pm == PMove::spec_new(*state, *cmd),
            pm.s == *state,
            pm.cmd == *cmd,
            pm.snapinitial == 0,
            pm.numtouch == 0,
            pm.watertype == 0,
            pm.waterlevel == 0,
    {
        PMove { s: *state, cmd: *cmd, snapinitial: 0, numtouch: 0, watertype: 0, waterlevel: 0 }
    }
}

/// First half of a client's think: the client's state is prepared (normal
/// movement, default gravity) and the request to move it by `cmd` is built
/// from the prepared state.
pub fn client_think_begin(ps: &mut PMoveState, cmd: &UserCmd) -> (pm: PMove)
    ensures
        *final(ps) == old(ps).prepared(),
        pm == PMove::spec_new(old(ps).prepared(), *cmd),
        final(ps).pm_type == PM_NORMAL,
        final(ps).gravity == DEFAULT_GRAVITY,
        final(ps).origin == old(ps).origin,
        final(ps).velocity == old(ps).velocity,
        final(ps).pm_flags == old(ps).pm_flags,
        final(ps).pm_time == old(ps).pm_time,
        final(ps).delta_angles == old(ps).delta_angles,
        pm.s == *final(ps),
        pm.cmd == *cmd,
        pm.snapinitial == 0,
        pm.numtouch == 0,
        pm.watertype == 0,
        pm.waterlevel == 0,
{
    ps.prepare_for_think();
    PMove::new(ps, cmd)
}

/// Second half of a client's think: the state the engine moved becomes the
/// client's state.
pub fn client_think_end(ps: &mut PMoveState, pm: &PMove)
    ensures
        *final(ps) == pm.s,
{
    *ps = pm.s;
}

/// Preparing a state for a think puts it in normal movement under the
/// default gravity and keeps its position, velocity, movement flags, timer
/// and angle deltas, whatever the state was.
pub proof fn lemma_prepare_changes_only_type_and_gravity(s: PMoveState)
    ensures
        s.prepared().pm_type == 0,
        s.prepared().gravity == 800,
        s.prepared().origin == s.origin,
        s.prepared().velocity == s.velocity,
        s.prepared().pm_flags == s.pm_flags,
        s.prepared().pm_time == s.pm_time,
        s.prepared().delta_angles == s.delta_angles,
{
}

/// The movement request built from any state and command carries exactly
/// that state and that command, and starts with every counter at zero: it
/// asks for no initial snap and reports no touch and no water.
pub proof fn lemma_request_copies_and_zeroes(s: PMoveState, c: UserCmd)
    ensures
        PMove::spec_new(s, c).s == s,
        PMove::spec_new(s, c).cmd == c,
        PMove::spec_new(s, c).snapinitial == 0,
        PMove::spec_new(s, c).numtouch == 0,
        PMove::spec_new(s, c).watertype == 0,
        PMove::spec_new(s, c).waterlevel == 0,
{
}

/// Two requests built from the same state and command are the same request,
/// and requests built from different states differ.
pub proof fn lemma_request_determined_by_inputs(s1: PMoveState, c1: UserCmd, s2: PMoveState, c2: UserCmd)
    ensures
        (PMove::spec_new(s1, c1) == PMove::spec_new(s2, c2)) <==> (s1 == s2 && c1 == c2),
{
    if PMove::spec_new(s1, c1) == PMove::spec_new(s2, c2) {
        lemma_request_copies_and_zeroes(s1, c1);
        lemma_request_copies_and_zeroes(s2, c2);
    }
}

/// Preparing a state twice is preparing it once.
pub proof fn lemma_prepare_idempotent(s: PMoveState)
    ensures
        s.prepared().prepared() == s.prepared(),
{
}

/// Preparing changes nothing but the movement type and the gravity: a state
/// already in normal movement under the default gravity is left as it is.
pub proof fn lemma_prepare_keeps_prepared(s: PMoveState)
    requires
        s.pm_type == PM_NORMAL,
        s.gravity == DEFAULT_GRAVITY,
    ensures
        s.prepared() == s,
{
}

/// A think in which the engine does not move the player leaves the client in
/// the prepared state, and the request carried the command unchanged.
pub proof fn lemma_think_without_move(s: PMoveState, cmd: UserCmd)
    ensures
        PMove::spec_new(s.prepared(), cmd).s == s.prepared(),
        PMove::spec_new(s.prepared(), cmd).cmd == cmd,
{
}

} // verus!
