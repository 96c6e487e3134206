use xr_locomotion::animation::first_player_index;
use xr_locomotion::asset_handler::AssetElementList;
use xr_locomotion::asset_handler::MAX_ASSET_ELEMENTS;
use xr_locomotion::asset_handler::asset_element_files;
use xr_locomotion::bindings::ActionId;
use xr_locomotion::bindings::ActionKind;
use xr_locomotion::bindings::ActionSetId;
use xr_locomotion::bindings::action_catalog;
use xr_locomotion::bindings::action_kind;
use xr_locomotion::bindings::action_set;
use xr_locomotion::bindings::set_priority;
use xr_locomotion::look::MouseState;
use xr_locomotion::scene_cycle::SceneCycleState;

#[test]
fn catalogue_lists_both_scene_files() {
    let files = asset_element_files();
    assert_eq!(files.len(), MAX_ASSET_ELEMENTS);
    assert_eq!(files[0].file_name, "simpleHumanRig.glb");
    assert_eq!(files[1].file_name, "simpleWall.glb");
}

#[test]
fn get_by_index_returns_registered_handle() {
    let mut list: AssetElementList<u64> = AssetElementList::new();
    list.push(41);
    list.push(42);
    assert_eq!(list.len(), 2);
    assert_eq!(list.get_by_index(0), Some(&41));
    assert_eq!(list.get_by_index(1), Some(&42));
}

#[test]
fn get_by_index_out_of_range_is_absent() {
    let mut list: AssetElementList<u64> = AssetElementList::new();
    list.push(41);
    assert_eq!(list.get_by_index(1), None);
    assert_eq!(list.get_by_index(usize::MAX), None);
}

#[test]
fn get_by_index_is_stable_across_calls() {
    let mut list: AssetElementList<u64> = AssetElementList::new();
    list.push(7);
    list.push(8);
    let first = list.get_by_index(1).copied();
    let second = list.get_by_index(1).copied();
    assert_eq!(first, Some(8));
    assert_eq!(first, second);
}

#[test]
fn scene_cycle_spawns_once_per_press() {
    let mut s = SceneCycleState::new();
    assert_eq!(s.advance(true, 2), Some(1));
    // Held down: no second spawn.
    assert_eq!(s.advance(true, 2), None);
    // Released: no spawn, but re-armed.
    assert_eq!(s.advance(false, 2), None);
    assert!(s.new_scene_released);
    // Next press wraps around to the first scene.
    assert_eq!(s.advance(true, 2), Some(0));
}

#[test]
fn scene_cycle_idle_keeps_index() {
    let mut s = SceneCycleState::new();
    assert_eq!(s.advance(false, 2), None);
    assert_eq!(s.shown_scene, 0);
}

#[test]
fn first_player_index_picks_first_carrier() {
    let nodes = vec![false, true, true, false];
    assert_eq!(first_player_index(&nodes), Some(1));
}

#[test]
fn first_player_index_absent_without_carrier() {
    assert_eq!(first_player_index(&vec![false, false]), None);
    assert_eq!(first_player_index(&Vec::new()), None);
}

#[test]
fn mouse_look_integrates_and_clamps() {
    let mut m = MouseState::new();
    m.apply_look(0, 0);
    assert_eq!(m, MouseState { yaw: 0, pitch: 0 });
    // One whole count of motion to the right turns the yaw by -20000
    // microradians.
    m.apply_look(1000, 0);
    assert_eq!(m.yaw, -20_000);
    // A huge upward sweep pins the pitch at the positive limit.
    m.apply_look(0, -1_000_000_000);
    assert_eq!(m.pitch, 1_540_000);
    // And back down past the other end pins it at the negative limit.
    m.apply_look(0, 1_000_000_000);
    assert_eq!(m.pitch, -1_540_000);
}

#[test]
fn action_catalogue_declares_all_actions() {
    let ids = action_catalog();
    assert_eq!(ids.len(), 13);
    assert_eq!(ids[0], ActionId::Move);
    assert_eq!(ids[11], ActionId::HandLeftPose);
    for (i, a) in ids.iter().enumerate() {
        for (j, b) in ids.iter().enumerate() {
            if i != j {
                assert_ne!(a, b);
            }
        }
    }
}

#[test]
fn action_kinds_and_sets_match_declarations() {
    assert_eq!(action_kind(ActionId::Move), ActionKind::Analog2d);
    assert_eq!(action_kind(ActionId::Look), ActionKind::Analog1d);
    assert_eq!(action_kind(ActionId::NewScene), ActionKind::Digital);
    assert_eq!(action_kind(ActionId::HandRightPose), ActionKind::SpacePose);
    assert_eq!(action_set(ActionId::Move), ActionSetId::Player);
    assert_eq!(action_set(ActionId::HandLeftPose), ActionSetId::Pose);
    assert_eq!(set_priority(ActionSetId::Player), 1);
    assert_eq!(set_priority(ActionSetId::Pose), 0);
}
