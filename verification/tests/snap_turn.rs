use xr_locomotion::geom::Vec3Nano;
use xr_locomotion::turn::TurnEvent;
use xr_locomotion::turn::TurnState;
use xr_locomotion::turn::snap_turn_step;

fn origin() -> Vec3Nano {
    Vec3Nano { x: 0, y: 0, z: 0 }
}

#[test]
fn deflect_hold_release_deflect_fires_at_first_and_fourth_tick() {
    // Deflections 0.9, 0.9, 0.1, 0.9 against a fresh (armed) machine: the
    // first tick fires, the second is suppressed by the cooldown, the third
    // re-arms below the release threshold, the fourth fires again.
    let mut state = TurnState::new();
    let ticks = [900i64, 900, 100, 900];
    let mut fired = Vec::new();
    for t in ticks {
        fired.push(snap_turn_step(&mut state, t, None, origin()).is_some());
    }
    assert_eq!(fired, vec![true, false, false, true]);
}

#[test]
fn no_fire_at_activation_threshold() {
    let mut state = TurnState::new();
    assert!(snap_turn_step(&mut state, 800, None, origin()).is_none());
    assert!(snap_turn_step(&mut state, -800, None, origin()).is_none());
    assert!(snap_turn_step(&mut state, 801, None, origin()).is_some());
}

#[test]
fn release_threshold_is_strict() {
    let mut state = TurnState::new();
    assert!(snap_turn_step(&mut state, 900, None, origin()).is_some());
    // 0.2 exactly does not re-arm; just below it does.
    assert!(snap_turn_step(&mut state, 200, None, origin()).is_none());
    assert!(snap_turn_step(&mut state, 900, None, origin()).is_none());
    assert!(snap_turn_step(&mut state, 199, None, origin()).is_none());
    assert!(snap_turn_step(&mut state, 900, None, origin()).is_some());
}

#[test]
fn angle_is_quantum_and_sign_follows_deflection() {
    let mut state = TurnState::new();
    let right = snap_turn_step(&mut state, 900, None, origin()).unwrap();
    assert_eq!(right.angle_deg, -45);
    let mut state2 = TurnState::new();
    let left = snap_turn_step(&mut state2, -900, None, origin()).unwrap();
    assert_eq!(left.angle_deg, 45);
}

#[test]
fn pivot_is_projected_headset_when_tracked() {
    let mut state = TurnState::new();
    let headset = Vec3Nano { x: 250_000_000, y: 1_700_000_000, z: -125_000_000 };
    let ev = snap_turn_step(&mut state, 1000, Some(headset), origin()).unwrap();
    assert_eq!(
        ev,
        TurnEvent {
            angle_deg: -45,
            pivot: Vec3Nano { x: 250_000_000, y: 0, z: -125_000_000 },
        }
    );
}

#[test]
fn pivot_falls_back_to_root_origin() {
    let mut state = TurnState::new();
    let root = Vec3Nano { x: 7, y: 8, z: 9 };
    let ev = snap_turn_step(&mut state, 1000, None, root).unwrap();
    assert_eq!(ev.pivot, root);
}
