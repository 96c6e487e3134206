//! Cycling through the registered scenes on a button press, with an
//! edge-detection debounce: holding the button spawns one scene, and the
//! next spawn needs a release first.

use vstd::prelude::*;

verus! {

/// The cross-tick state of the scene cycler: the index of the scene shown
/// now, and whether the spawn button has been seen released since the last
/// spawn.
#[derive(Clone, Copy, PartialEq, Eq, Structural, Debug)]
pub struct SceneCycleState {
    pub shown_scene: usize,
    pub new_scene_released: bool,
}

/// The index shown after advancing once through a registry of `count`
/// scenes: the successor, wrapping to the first scene past the end.
pub open spec fn next_scene_index(current: int, count: int) -> int {
    if current + 1 >= count {
        0
    } else {
        current + 1
    }
}

impl SceneCycleState {
    /// Starts at the first scene with the button counted as released, so
    /// the first press spawns.
    pub fn new() -> (s: SceneCycleState)
        ensures
            s.shown_scene == 0,
            s.new_scene_released,
    {
        SceneCycleState { shown_scene: 0, new_scene_released: true }
    }

    /// One tick of the cycler. `pressed` is the spawn button this tick;
    /// `count` is the number of registered scenes. Returns the index of the
    /// scene to spawn, when one is owed: exactly on a press that follows a
    /// release.
    pub fn advance(&mut self, pressed: bool, count: usize) -> (spawn: Option<usize>)
        requires
            count > 0,
            old(self).shown_scene < count,
        ensures
            final(self).shown_scene < count,
            !pressed ==> *final(self) == (SceneCycleState {
                shown_scene: old(self).shown_scene,
                new_scene_released: true,
            }) && spawn is None,
            pressed && !old(self).new_scene_released ==> *final(self) == *old(self) && spawn
                is None,
            pressed && old(self).new_scene_released ==> final(self).shown_scene
                == next_scene_index(old(self).shown_scene as int, count as int)
                && !final(self).new_scene_released && spawn == Some(final(self).shown_scene),
    {
        if !pressed {
            self.new_scene_released = true;
            return None;
        }
        if !self.new_scene_released {
            return None;
        }
        self.new_scene_released = false;
        if self.shown_scene + 1 >= count {
            self.shown_scene = 0;
        } else {
            self.shown_scene = self.shown_scene + 1;
        }
        Some(self.shown_scene)
    }
}

} // verus!
