use player_sync::movement::{movement_direction, plan_player_step, GridDirection, PlayerStep};

#[test]
fn no_keys_give_no_direction() {
    let d = movement_direction(false, false, false, false);
    assert_eq!(d, GridDirection { x: 0, y: 0 });
    assert!(d.is_still());
}

#[test]
fn each_key_steps_one_unit() {
    assert_eq!(movement_direction(true, false, false, false), GridDirection { x: 0, y: 1 });
    assert_eq!(movement_direction(false, true, false, false), GridDirection { x: 0, y: -1 });
    assert_eq!(movement_direction(false, false, true, false), GridDirection { x: 1, y: 0 });
    assert_eq!(movement_direction(false, false, false, true), GridDirection { x: -1, y: 0 });
}

#[test]
fn diagonal_keys_combine() {
    assert_eq!(movement_direction(true, false, true, false), GridDirection { x: 1, y: 1 });
    assert_eq!(movement_direction(false, true, false, true), GridDirection { x: -1, y: -1 });
}

#[test]
fn opposite_keys_cancel() {
    let d = movement_direction(true, true, true, true);
    assert_eq!(d, GridDirection { x: 0, y: 0 });
    assert!(d.is_still());
    assert_eq!(movement_direction(true, true, true, false), GridDirection { x: 1, y: 0 });
}

#[test]
fn still_and_standing_player_is_kept() {
    let d = movement_direction(false, false, false, false);
    assert_eq!(plan_player_step(d, true), PlayerStep::Keep);
}

#[test]
fn still_but_moving_player_is_stopped_then_kept() {
    let d = movement_direction(false, false, false, false);
    assert_eq!(plan_player_step(d, false), PlayerStep::Stop);
    assert_eq!(plan_player_step(d, true), PlayerStep::Keep);
}

#[test]
fn held_key_moves_whatever_the_velocity() {
    let d = movement_direction(false, false, true, false);
    assert_eq!(plan_player_step(d, true), PlayerStep::Move(GridDirection { x: 1, y: 0 }));
    assert_eq!(plan_player_step(d, false), PlayerStep::Move(GridDirection { x: 1, y: 0 }));
}
