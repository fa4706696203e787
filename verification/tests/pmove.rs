use rusty_q2::pmove::{
    client_think_begin, client_think_end, PMove, PMoveState, UserCmd, CONTENTS_MONSTER,
    CONTENTS_PLAYERCLIP, CONTENTS_SOLID, CONTENTS_WINDOW, DEFAULT_GRAVITY, MASK_PLAYERSOLID,
    PM_NORMAL,
};

fn sample_state() -> PMoveState {
    PMoveState {
        pm_type: 4,
        origin: [10, -20, 30],
        velocity: [1, 2, 3],
        pm_flags: 0x20,
        pm_time: 7,
        gravity: 0,
        delta_angles: [-5, 6, 7],
    }
}

fn sample_cmd() -> UserCmd {
    UserCmd {
        msec: 16,
        buttons: 1,
        angles: [100, 200, 300],
        forwardmove: 400,
        sidemove: -200,
        upmove: 0,
        impulse: 0,
        lightlevel: 128,
    }
}

#[test]
fn prepare_sets_normal_movement_and_gravity_only() {
    let mut s = sample_state();
    s.prepare_for_think();
    assert_eq!(s.pm_type, 0);
    assert_eq!(s.gravity, 800);
    let mut expected = sample_state();
    expected.pm_type = PM_NORMAL;
    expected.gravity = DEFAULT_GRAVITY;
    assert_eq!(s, expected);
}

#[test]
fn prepare_twice_is_prepare_once() {
    let mut once = sample_state();
    once.prepare_for_think();
    let mut twice = once;
    twice.prepare_for_think();
    assert_eq!(once, twice);
}

#[test]
fn new_request_copies_state_and_command_with_zero_counters() {
    let s = sample_state();
    let c = sample_cmd();
    let pm = PMove::new(&s, &c);
    assert_eq!(pm.s, s);
    assert_eq!(pm.cmd, c);
    assert_eq!(pm.snapinitial, 0);
    assert_eq!(pm.numtouch, 0);
    assert_eq!(pm.watertype, 0);
    assert_eq!(pm.waterlevel, 0);
}

#[test]
fn think_begin_prepares_client_and_request() {
    let mut ps = sample_state();
    let c = sample_cmd();
    let pm = client_think_begin(&mut ps, &c);
    assert_eq!(ps.pm_type, 0);
    assert_eq!(ps.gravity, 800);
    assert_eq!(ps.origin, [10, -20, 30]);
    assert_eq!(pm.s, ps);
    assert_eq!(pm.cmd, c);
}

#[test]
fn think_end_keeps_what_the_engine_returned() {
    let mut ps = sample_state();
    let c = sample_cmd();
    let mut pm = client_think_begin(&mut ps, &c);
    pm.s.origin = [11, -19, 31];
    pm.s.velocity = [0, 0, -8];
    pm.s.pm_flags = 4;
    client_think_end(&mut ps, &pm);
    assert_eq!(ps.origin, [11, -19, 31]);
    assert_eq!(ps.velocity, [0, 0, -8]);
    assert_eq!(ps.pm_flags, 4);
    assert_eq!(ps.gravity, 800);
}

#[test]
fn think_without_move_leaves_prepared_state() {
    let mut ps = sample_state();
    let c = sample_cmd();
    let pm = client_think_begin(&mut ps, &c);
    let prepared = ps;
    client_think_end(&mut ps, &pm);
    assert_eq!(ps, prepared);
    assert_eq!(ps.pm_type, 0);
    assert_eq!(ps.gravity, 800);
}

#[test]
fn player_solid_mask_value() {
    assert_eq!(MASK_PLAYERSOLID, 1 | 2 | 0x10000 | 0x2000000);
    assert_eq!(MASK_PLAYERSOLID, 0x2010003);
    for flag in [CONTENTS_SOLID, CONTENTS_WINDOW, CONTENTS_PLAYERCLIP, CONTENTS_MONSTER] {
        assert_eq!(MASK_PLAYERSOLID & flag, flag);
    }
}
