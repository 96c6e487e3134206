//! The catalogue of logical input actions the demo declares: which actions
//! exist, which action set each belongs to, and what kind of value each
//! carries. The physical bindings (controller paths, key codes) are plain
//! configuration text owned by the engine glue.

use vstd::prelude::*;

verus! {

/// The two action sets, by priority: the player set carries the movement
/// actions, the pose set the hand poses.
#[derive(Clone, Copy, PartialEq, Eq, Structural, Debug)]
pub enum ActionSetId {
    Player,
    Pose,
}

/// The kind of value a logical action delivers each tick.
#[derive(Clone, Copy, PartialEq, Eq, Structural, Debug)]
pub enum ActionKind {
    Analog2d,
    Analog1d,
    Digital,
    SpacePose,
}

/// Every logical action the demo declares.
#[derive(Clone, Copy, PartialEq, Eq, Structural, Debug)]
pub enum ActionId {
    Move,
    Turn,
    Look,
    NewScene,
    CenterCamera,
    MoveLeft,
    MoveRight,
    MoveForward,
    MoveBackward,
    MoveUp,
    MoveDown,
    HandLeftPose,
    HandRightPose,
}

pub open spec fn spec_action_kind(id: ActionId) -> ActionKind {
    match id {
        ActionId::Move => ActionKind::Analog2d,
        ActionId::Turn => ActionKind::Analog2d,
        ActionId::Look => ActionKind::Analog1d,
        ActionId::NewScene => ActionKind::Digital,
        ActionId::CenterCamera => ActionKind::Digital,
        ActionId::MoveLeft => ActionKind::Digital,
        ActionId::MoveRight => ActionKind::Digital,
        ActionId::MoveForward => ActionKind::Digital,
        ActionId::MoveBackward => ActionKind::Digital,
        ActionId::MoveUp => ActionKind::Digital,
        ActionId::MoveDown => ActionKind::Digital,
        ActionId::HandLeftPose => ActionKind::SpacePose,
        ActionId::HandRightPose => ActionKind::SpacePose,
    }
}

pub open spec fn spec_action_set(id: ActionId) -> ActionSetId {
    match id {
        ActionId::HandLeftPose => ActionSetId::Pose,
        ActionId::HandRightPose => ActionSetId::Pose,
        _ => ActionSetId::Player,
    }
}

/// The kind of value the given action delivers.
pub fn action_kind(id: ActionId) -> (k: ActionKind)
    ensures
        k == spec_action_kind(id),
{
    match id {
        ActionId::Move => ActionKind::Analog2d,
        ActionId::Turn => ActionKind::Analog2d,
        ActionId::Look => ActionKind::Analog1d,
        ActionId::NewScene => ActionKind::Digital,
        ActionId::CenterCamera => ActionKind::Digital,
        ActionId::MoveLeft => ActionKind::Digital,
        ActionId::MoveRight => ActionKind::Digital,
        ActionId::MoveForward => ActionKind::Digital,
        ActionId::MoveBackward => ActionKind::Digital,
        ActionId::MoveUp => ActionKind::Digital,
        ActionId::MoveDown => ActionKind::Digital,
        ActionId::HandLeftPose => ActionKind::SpacePose,
        ActionId::HandRightPose => ActionKind::SpacePose,
    }
}

/// The action set the given action is declared in.
pub fn action_set(id: ActionId) -> (s: ActionSetId)
    ensures
        s == spec_action_set(id),
{
    match id {
        ActionId::HandLeftPose => ActionSetId::Pose,
        ActionId::HandRightPose => ActionSetId::Pose,
        _ => ActionSetId::Player,
    }
}

/// The priority each action set is declared with.
pub fn set_priority(s: ActionSetId) -> (p: u32)
    ensures
        s == ActionSetId::Player ==> p == 1,
        s == ActionSetId::Pose ==> p == 0,
{
    match s {
        ActionSetId::Player => 1,
        ActionSetId::Pose => 0,
    }
}

/// All declared actions, in declaration order.
pub fn action_catalog() -> (r: Vec<ActionId>)
    ensures
        r@ == seq![
            ActionId::Move,
            ActionId::Turn,
            ActionId::Look,
            ActionId::NewScene,
            ActionId::CenterCamera,
            ActionId::MoveLeft,
            ActionId::MoveRight,
            ActionId::MoveForward,
            ActionId::MoveBackward,
            ActionId::MoveUp,
            ActionId::MoveDown,
            ActionId::HandLeftPose,
            ActionId::HandRightPose,
        ],
{
    let mut ids: Vec<ActionId> = Vec::new();
    ids.push(ActionId::Move);
    ids.push(ActionId::Turn);
    ids.push(ActionId::Look);
    ids.push(ActionId::NewScene);
    ids.push(ActionId::CenterCamera);
    ids.push(ActionId::MoveLeft);
    ids.push(ActionId::MoveRight);
    ids.push(ActionId::MoveForward);
    ids.push(ActionId::MoveBackward);
    ids.push(ActionId::MoveUp);
    ids.push(ActionId::MoveDown);
    ids.push(ActionId::HandLeftPose);
    ids.push(ActionId::HandRightPose);
    proof {
        assert(ids@ =~= seq![
            ActionId::Move,
            ActionId::Turn,
            ActionId::Look,
            ActionId::NewScene,
            ActionId::CenterCamera,
            ActionId::MoveLeft,
            ActionId::MoveRight,
            ActionId::MoveForward,
            ActionId::MoveBackward,
            ActionId::MoveUp,
            ActionId::MoveDown,
            ActionId::HandLeftPose,
            ActionId::HandRightPose,
        ]);
    }
    ids
}

} // verus!
