use player_controls::health::{Health, STARTING_HEALTH};
use player_controls::keys::{exit_command, AppCommand, HeldKeys};
use player_controls::steering::{
    movement_nudges, turn_axis, Nudge, TurnAxis, MOVE_SPEED, TURN_SPEED,
};

fn keys_from_bits(bits: u32) -> HeldKeys {
    HeldKeys {
        w: bits & 1 != 0,
        a: bits & 2 != 0,
        s: bits & 4 != 0,
        d: bits & 8 != 0,
        arrow_left: bits & 16 != 0,
        arrow_right: bits & 32 != 0,
        arrow_up: bits & 64 != 0,
        arrow_down: bits & 128 != 0,
    }
}

fn unit(key: bool) -> i32 {
    if key {
        1
    } else {
        0
    }
}

#[test]
fn new_player_is_at_full_health() {
    let h = Health::default();
    assert_eq!(h.health, 100);
    assert_eq!(h.max_health, 100);
    assert_eq!(STARTING_HEALTH, 100);
    assert_eq!(h, Health { health: 100, max_health: 100 });
}

#[test]
fn escape_exits() {
    assert_eq!(exit_command(true), AppCommand::Exit);
}

#[test]
fn no_escape_continues() {
    assert_eq!(exit_command(false), AppCommand::Continue);
}

#[test]
fn speed_factors() {
    assert_eq!(MOVE_SPEED, 500);
    assert_eq!(TURN_SPEED, 100);
}

#[test]
fn no_keys_no_motion() {
    let keys = HeldKeys::default();
    assert_eq!(movement_nudges(&keys), Vec::<Nudge>::new());
    assert_eq!(turn_axis(&keys), TurnAxis { x: 0, y: 0, z: 0 });
}

#[test]
fn each_movement_key_gives_its_nudge() {
    let none = HeldKeys::default();
    assert_eq!(movement_nudges(&HeldKeys { w: true, ..none }), vec![Nudge::Forward]);
    assert_eq!(movement_nudges(&HeldKeys { a: true, ..none }), vec![Nudge::Left]);
    assert_eq!(movement_nudges(&HeldKeys { s: true, ..none }), vec![Nudge::Backward]);
    assert_eq!(movement_nudges(&HeldKeys { d: true, ..none }), vec![Nudge::Right]);
}

#[test]
fn nudges_keep_key_order() {
    let none = HeldKeys::default();
    assert_eq!(
        movement_nudges(&HeldKeys { w: true, a: true, s: true, d: true, ..none }),
        vec![Nudge::Forward, Nudge::Left, Nudge::Backward, Nudge::Right]
    );
    assert_eq!(
        movement_nudges(&HeldKeys { d: true, a: true, ..none }),
        vec![Nudge::Left, Nudge::Right]
    );
    assert_eq!(
        movement_nudges(&HeldKeys { s: true, w: true, d: true, ..none }),
        vec![Nudge::Forward, Nudge::Backward, Nudge::Right]
    );
}

#[test]
fn arrows_do_not_move() {
    let keys = HeldKeys {
        arrow_left: true,
        arrow_right: true,
        arrow_up: true,
        arrow_down: true,
        ..HeldKeys::default()
    };
    assert_eq!(movement_nudges(&keys), Vec::<Nudge>::new());
}

#[test]
fn each_arrow_gives_its_axis() {
    let none = HeldKeys::default();
    assert_eq!(turn_axis(&HeldKeys { arrow_left: true, ..none }), TurnAxis { x: 0, y: 1, z: 0 });
    assert_eq!(turn_axis(&HeldKeys { arrow_right: true, ..none }), TurnAxis { x: 0, y: -1, z: 0 });
    assert_eq!(turn_axis(&HeldKeys { arrow_up: true, ..none }), TurnAxis { x: 1, y: 0, z: 0 });
    assert_eq!(turn_axis(&HeldKeys { arrow_down: true, ..none }), TurnAxis { x: -1, y: 0, z: 0 });
}

#[test]
fn opposite_arrows_cancel() {
    let none = HeldKeys::default();
    assert_eq!(
        turn_axis(&HeldKeys { arrow_left: true, arrow_right: true, ..none }),
        TurnAxis { x: 0, y: 0, z: 0 }
    );
    assert_eq!(
        turn_axis(&HeldKeys { arrow_up: true, arrow_down: true, arrow_left: true, ..none }),
        TurnAxis { x: 0, y: 1, z: 0 }
    );
}

#[test]
fn diagonal_turn() {
    let none = HeldKeys::default();
    assert_eq!(
        turn_axis(&HeldKeys { arrow_up: true, arrow_right: true, ..none }),
        TurnAxis { x: 1, y: -1, z: 0 }
    );
}

#[test]
fn letters_do_not_turn() {
    let keys = HeldKeys { w: true, a: true, s: true, d: true, ..HeldKeys::default() };
    assert_eq!(turn_axis(&keys), TurnAxis { x: 0, y: 0, z: 0 });
}

#[test]
fn every_combination_of_keys() {
    for bits in 0..256u32 {
        let keys = keys_from_bits(bits);
        let nudges = movement_nudges(&keys);
        let mut expected = Vec::new();
        if keys.w {
            expected.push(Nudge::Forward);
        }
        if keys.a {
            expected.push(Nudge::Left);
        }
        if keys.s {
            expected.push(Nudge::Backward);
        }
        if keys.d {
            expected.push(Nudge::Right);
        }
        assert_eq!(nudges, expected);
        let axis = turn_axis(&keys);
        assert_eq!(axis.x, unit(keys.arrow_up) - unit(keys.arrow_down));
        assert_eq!(axis.y, unit(keys.arrow_left) - unit(keys.arrow_right));
        assert_eq!(axis.z, 0);
    }
}

#[test]
fn net_of_nudges_is_difference_of_opposite_keys() {
    for bits in 0..16u32 {
        let keys = keys_from_bits(bits);
        let mut forward = 0;
        let mut right = 0;
        for nudge in movement_nudges(&keys) {
            match nudge {
                Nudge::Forward => forward += 1,
                Nudge::Backward => forward -= 1,
                Nudge::Right => right += 1,
                Nudge::Left => right -= 1,
            }
        }
        assert_eq!(forward, unit(keys.w) - unit(keys.s));
        assert_eq!(right, unit(keys.d) - unit(keys.a));
    }
}
