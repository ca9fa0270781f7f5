use ghost_replay::animation::{
    advance_sprite_index, select_flip, select_player_animation, Animation,
};
use ghost_replay::hit_box::{check_hit, HitBox};
use ghost_replay::player::{
    change_player, double_jump, ground_detection, move_player, Grounded, Jump, Player, Vel,
    JUMP_SPEED, MOVE_SPEED,
};
use ghost_replay::replay::Pos;

#[test]
fn jump_from_ground_sets_upward_speed() {
    let mut v = Vel { x: 5, y: -3 };
    move_player(&mut v, true, false, false, false, Grounded(true), false, false);
    assert_eq!(v, Vel { x: 5, y: JUMP_SPEED });
}

#[test]
fn jump_in_the_air_does_nothing() {
    let mut v = Vel { x: 5, y: -3 };
    move_player(&mut v, true, false, false, false, Grounded(false), false, false);
    assert_eq!(v, Vel { x: 5, y: -3 });
}

#[test]
fn fall_key_caps_vertical_speed_at_zero() {
    let mut v = Vel { x: 5, y: 40 };
    move_player(&mut v, false, true, false, false, Grounded(false), false, false);
    assert_eq!(v, Vel { x: 5, y: 0 });
    let mut falling = Vel { x: 5, y: -40 };
    move_player(&mut falling, false, true, false, false, Grounded(false), false, false);
    assert_eq!(falling, Vel { x: 5, y: -40 });
}

#[test]
fn walking_respects_wall_probes() {
    let mut v = Vel { x: 0, y: 0 };
    move_player(&mut v, false, false, true, false, Grounded(true), false, false);
    assert_eq!(v.x, -MOVE_SPEED);
    let mut blocked = Vel { x: 0, y: 0 };
    move_player(&mut blocked, false, false, true, false, Grounded(true), true, false);
    assert_eq!(blocked.x, 0);
    let mut right = Vel { x: 0, y: 0 };
    move_player(&mut right, false, false, false, true, Grounded(true), false, false);
    assert_eq!(right.x, MOVE_SPEED);
    let mut blocked_right = Vel { x: 0, y: 0 };
    move_player(&mut blocked_right, false, false, false, true, Grounded(true), false, true);
    assert_eq!(blocked_right.x, 0);
}

#[test]
fn jump_key_beats_direction_keys() {
    let mut v = Vel { x: 0, y: 0 };
    move_player(&mut v, true, false, true, true, Grounded(true), false, false);
    assert_eq!(v, Vel { x: 0, y: JUMP_SPEED });
}

#[test]
fn double_jump_spends_the_armed_jump() {
    let mut jump = Jump(true);
    let mut v = Vel { x: 0, y: -500 };
    double_jump(&mut jump, &mut v, false, true);
    assert_eq!(jump, Jump(false));
    assert_eq!(v, Vel { x: 0, y: JUMP_SPEED });
    // Spent: pressing again mid-air gives nothing.
    let mut v2 = Vel { x: 0, y: 300 };
    double_jump(&mut jump, &mut v2, false, true);
    assert_eq!(jump, Jump(false));
    assert_eq!(v2, Vel { x: 0, y: 300 });
}

#[test]
fn double_jump_needs_vertical_motion() {
    let mut jump = Jump(true);
    let mut v = Vel { x: 50, y: 0 };
    double_jump(&mut jump, &mut v, false, true);
    assert_eq!(jump, Jump(true));
    assert_eq!(v, Vel { x: 50, y: 0 });
}

#[test]
fn landing_rearms_the_jump() {
    let mut jump = Jump(false);
    let mut v = Vel { x: 0, y: -200 };
    double_jump(&mut jump, &mut v, true, false);
    assert_eq!(jump, Jump(true));
    assert_eq!(v, Vel { x: 0, y: -200 });
}

#[test]
fn ground_detection_hysteresis() {
    let mut streak: i64 = 0;
    let mut grounded = Grounded(false);
    // Two stable ticks are not enough.
    ground_detection(&mut streak, &mut grounded, true);
    ground_detection(&mut streak, &mut grounded, true);
    assert!(!grounded.0);
    // The third makes the player grounded.
    ground_detection(&mut streak, &mut grounded, true);
    assert!(grounded.0);
    assert_eq!(streak, 3);
    // One moving tick does not lift the flag yet.
    ground_detection(&mut streak, &mut grounded, false);
    assert!(grounded.0);
    assert_eq!(streak, 2);
    // Only reaching zero does.
    ground_detection(&mut streak, &mut grounded, false);
    ground_detection(&mut streak, &mut grounded, false);
    assert!(!grounded.0);
    assert_eq!(streak, 0);
}

#[test]
fn skin_selection_cycles() {
    let mut p = Player::Mask;
    change_player(&mut p, true, false);
    assert_eq!(p, Player::Ninja);
    change_player(&mut p, true, false);
    assert_eq!(p, Player::Pink);
    change_player(&mut p, true, false);
    assert_eq!(p, Player::Guy);
    change_player(&mut p, true, false);
    assert_eq!(p, Player::Mask);
    // The previous-skin key walks the same cycle.
    change_player(&mut p, false, true);
    assert_eq!(p, Player::Ninja);
    // No key: no change.
    change_player(&mut p, false, false);
    assert_eq!(p, Player::Ninja);
}

#[test]
fn animation_selection_priorities() {
    assert_eq!(select_player_animation(true, true, true), Animation::PlayerJump);
    assert_eq!(select_player_animation(false, false, true), Animation::PlayerFall);
    assert_eq!(select_player_animation(false, true, true), Animation::PlayerRun);
    assert_eq!(select_player_animation(false, true, false), Animation::PlayerIdle);
}

#[test]
fn flip_follows_the_keys() {
    // A fresh left press turns left.
    assert!(select_flip(false, true, false, false, true, false));
    // A fresh right press turns right unless left is held.
    assert!(!select_flip(true, false, true, false, false, true));
    assert!(select_flip(true, false, true, false, true, true));
    // Releasing left with right still held turns right.
    assert!(!select_flip(true, false, false, true, false, true));
    // Nothing pressed: unchanged.
    assert!(select_flip(true, false, false, false, false, false));
    assert!(!select_flip(false, false, false, false, false, false));
}

#[test]
fn sprite_index_advances_and_wraps() {
    assert_eq!(advance_sprite_index(0, 3, 11), 3);
    assert_eq!(advance_sprite_index(9, 3, 11), 1);
    assert_eq!(advance_sprite_index(10, 1, 11), 0);
    assert_eq!(advance_sprite_index(0, 0, 1), 0);
    assert_eq!(advance_sprite_index(5, 22, 11), 5);
}

#[test]
fn hit_boxes_overlap_and_miss() {
    let unit = HitBox { width: 2000, height: 2000 };
    let at = |x: i64, y: i64| Pos { x, y, z: 0 };
    assert!(check_hit(unit, at(0, 0), unit, at(0, 0)));
    assert!(check_hit(unit, at(0, 0), unit, at(1999, 0)));
    // Touching edges do not count as a hit.
    assert!(!check_hit(unit, at(0, 0), unit, at(2000, 0)));
    assert!(!check_hit(unit, at(0, 0), unit, at(0, 2000)));
    assert!(check_hit(unit, at(0, 0), unit, at(-1999, 1999)));
    assert!(!check_hit(unit, at(0, 0), unit, at(-2001, 0)));
}
