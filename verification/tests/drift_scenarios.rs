use ghost_replay::player::{Jump, Player, Vel};
use ghost_replay::replay::{GhostEvents, PlayerState, Pos, ReplaySession};

fn state(vx: i64) -> PlayerState {
    PlayerState {
        velocity: Vel { x: vx, y: 0 },
        jump: Jump(false),
        skin: Player::Ninja,
    }
}

fn pos(x: i64) -> Pos {
    Pos { x, y: 0, z: 0 }
}

#[test]
fn end_to_end_drift_correction() {
    // Checkpoints at frames 0, 3 and 6 only; a ghost spawned at frame
    // 10 must be snapped to them at ages 3 and 6, and at age 9 the
    // missing checkpoint must be reported and the position left alone.
    let p0 = pos(100);
    let p1 = pos(200);
    let p2 = pos(300);
    let mut s = ReplaySession::new(3);
    s.save_player_offset(p0);
    for f in 1..=10u64 {
        s.update_frame();
        s.save_player_state(state(f as i64));
        if f == 3 {
            s.save_player_offset(p1);
        }
        if f == 6 {
            s.save_player_offset(p2);
        }
    }
    assert_eq!(s.frame(), 10);
    assert!(s.handle_ghost_event(GhostEvents::SpawnGhost, Some(state(0))));

    for age in 1..=9u64 {
        s.update_frame();
        s.update_ghost();
        let missed = s.drift_correct();
        assert_eq!(s.ghost_at(0).age, age);
        match age {
            3 => {
                assert_eq!(s.ghost_at(0).pos, p1);
                assert_eq!(missed, vec![]);
            }
            6 => {
                assert_eq!(s.ghost_at(0).pos, p2);
                assert_eq!(missed, vec![]);
            }
            9 => {
                // Due, but no checkpoint was recorded at frame 9: the
                // error is surfaced and the correction skipped.
                assert_eq!(missed, vec![9]);
                assert_eq!(s.ghost_at(0).pos, p2);
            }
            _ => {
                assert_eq!(missed, vec![]);
            }
        }
    }
}

#[test]
fn drift_correction_skips_age_zero() {
    let mut s = ReplaySession::new(3);
    s.save_player_offset(pos(500));
    assert!(s.handle_ghost_event(GhostEvents::SpawnGhost, Some(state(0))));
    let missed = s.drift_correct();
    // Age 0 is not due: no snap to the frame-0 checkpoint, no report.
    assert_eq!(missed, vec![]);
    assert_eq!(s.ghost_at(0).pos, Pos { x: 0, y: 0, z: 0 });
}

#[test]
fn drift_correction_reports_each_missing_ghost() {
    let mut s = ReplaySession::new(2);
    s.handle_ghost_event(GhostEvents::SpawnGhost, Some(state(0)));
    s.handle_ghost_event(GhostEvents::SpawnGhost, Some(state(0)));
    s.update_frame();
    s.update_frame();
    // Both ghosts reach age 2 with no checkpoint anywhere.
    let missed = s.drift_correct();
    assert_eq!(missed, vec![2, 2]);
}

#[test]
fn replayed_ghost_follows_recorded_trail() {
    let mut s = ReplaySession::new(10);
    for f in 1..=4i64 {
        s.tick(state(10 * f), pos(f));
    }
    s.handle_ghost_event(GhostEvents::SpawnGhost, Some(state(0)));
    for age in 1..=4u64 {
        s.update_frame();
        s.update_ghost();
        assert_eq!(s.ghost_at(0).state, state(10 * age as i64));
    }
}
