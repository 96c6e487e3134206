//! Snap-turn: a quantized yaw rotation triggered by a threshold crossing on
//! an analog axis, debounced by a two-state machine with a hysteresis band
//! so that exactly one turn is emitted per deflection-then-release gesture.

use vstd::prelude::*;
use crate::geom::MILLI_ONE;
use crate::geom::Vec3Nano;
use crate::geom::abs_val;

verus! {

/// Activation threshold, in milli steps: a turn may fire only while the
/// axis deflection exceeds 0.8.
pub const TURN_ACTIVATE_MILLI: i64 = 800;

/// Release threshold, in milli steps: the machine re-arms only once the
/// deflection drops below 0.2. Being well below the activation threshold,
/// this leaves a hysteresis band that prevents chatter at the boundary.
pub const TURN_RELEASE_MILLI: i64 = 200;

/// Magnitude of every emitted turn, in degrees.
pub const TURN_QUANTUM_DEG: i64 = 45;

/// The debounce state that persists across ticks. `ready` means armed: the
/// next sufficient deflection fires a turn. After a fired turn the machine
/// is in cooldown (`ready == false`) until the axis is released.
pub struct TurnState {
    pub ready: bool,
}

impl TurnState {
    /// The machine starts armed.
    pub fn new() -> (s: TurnState)
        ensures
            s.ready,
    {
        TurnState { ready: true }
    }
}

/// A fired turn, handed to the caller to apply to the tracked root: the
/// signed yaw angle and the pivot to rotate around.
#[derive(Clone, Copy, PartialEq, Eq, Structural, Debug)]
pub struct TurnEvent {
    pub angle_deg: i64,
    pub pivot: Vec3Nano,
}

/// A turn fires on this tick: the machine is armed and the deflection
/// exceeds the activation threshold.
pub open spec fn turn_fires(ready: bool, t: int) -> bool {
    ready && abs_val(t) > TURN_ACTIVATE_MILLI
}

/// The armed flag after one tick: released below the release threshold the
/// machine re-arms; a fired turn disarms it; otherwise it is unchanged.
pub open spec fn turn_next_ready(ready: bool, t: int) -> bool {
    if abs_val(t) < TURN_RELEASE_MILLI {
        true
    } else if turn_fires(ready, t) {
        false
    } else {
        ready
    }
}

/// The signed angle of a fired turn: deflection to the right (positive)
/// rotates by the negative quantum, to the left by the positive one.
pub open spec fn turn_angle_deg(t: int) -> int {
    if t > 0 {
        -TURN_QUANTUM_DEG
    } else {
        TURN_QUANTUM_DEG as int
    }
}

/// The pivot of a fired turn: the horizontal projection of the headset
/// position when one is available, else the root's own origin.
pub open spec fn turn_pivot(headset: Option<Vec3Nano>, root_origin: Vec3Nano) -> Vec3Nano {
    match headset {
        Some(h) => Vec3Nano { x: h.x, y: 0, z: h.z },
        None => root_origin,
    }
}

/// One tick of the snap-turn machine. `turn_milli` is the turn axis in
/// milli steps of full deflection; `headset` is the headset position in
/// world space when one is tracked. Fires at most one turn and reports it;
/// applying the returned rotation is the caller's task.
pub fn snap_turn_step(
    state: &mut TurnState,
    turn_milli: i64,
    headset: Option<Vec3Nano>,
    root_origin: Vec3Nano,
) -> (ev: Option<TurnEvent>)
    requires
        abs_val(turn_milli as int) <= MILLI_ONE,
    ensures
        final(state).ready == turn_next_ready(old(state).ready, turn_milli as int),
        ev is Some <==> turn_fires(old(state).ready, turn_milli as int),
        ev matches Some(e) ==> e.angle_deg == turn_angle_deg(turn_milli as int) && e.pivot
            == turn_pivot(headset, root_origin),
{
    let magnitude = if turn_milli < 0 {
        -turn_milli
    } else {
        turn_milli
    };
    let mut fired: Option<TurnEvent> = None;
    if magnitude > TURN_ACTIVATE_MILLI && state.ready {
        let angle_deg = if turn_milli > 0 {
            -TURN_QUANTUM_DEG
        } else {
            TURN_QUANTUM_DEG
        };
        let pivot = match headset {
            Some(h) => Vec3Nano { x: h.x, y: 0, z: h.z },
            None => root_origin,
        };
        fired = Some(TurnEvent { angle_deg, pivot });
        state.ready = false;
    }
    if magnitude < TURN_RELEASE_MILLI {
        state.ready = true;
    }
    fired
}

/// Every turn angle has the fixed quantum magnitude, and its sign is
/// opposite the sign of the deflection that fired it.
pub proof fn lemma_turn_angle_quantum(t: int)
    ensures
        abs_val(turn_angle_deg(t)) == TURN_QUANTUM_DEG,
        t > 0 ==> turn_angle_deg(t) == -TURN_QUANTUM_DEG,
        t < 0 ==> turn_angle_deg(t) == TURN_QUANTUM_DEG,
{
}

/// The armed flag after running the machine over a whole sequence of
/// per-tick deflections.
pub open spec fn ready_after(ready0: bool, ts: Seq<int>) -> bool
    decreases ts.len(),
{
    if ts.len() == 0 {
        ready0
    } else {
        turn_next_ready(ready_after(ready0, ts.drop_last()), ts.last())
    }
}

/// A turn fires at position `i` of the tick sequence `ts`, started armed or
/// not by `ready0`.
pub open spec fn fires_at(ready0: bool, ts: Seq<int>, i: int) -> bool {
    turn_fires(ready_after(ready0, ts.take(i)), ts[i])
}

/// Running the machine over a concatenation runs it over the parts in
/// order.
pub proof fn lemma_ready_after_concat(ready0: bool, a: Seq<int>, b: Seq<int>)
    ensures
        ready_after(ready0, a + b) == ready_after(ready_after(ready0, a), b),
    decreases b.len(),
{
    if b.len() == 0 {
        assert(a + b =~= a);
    } else {
        lemma_ready_after_concat(ready0, a, b.drop_last());
        assert((a + b).drop_last() =~= a + b.drop_last());
        assert((a + b).last() == b.last());
    }
}

/// While every deflection stays at or above the release threshold, a
/// disarmed machine stays disarmed and fires nothing.
pub proof fn lemma_cooldown_holds(ts: Seq<int>)
    requires
        forall|k: int| 0 <= k < ts.len() ==> abs_val(ts[k]) >= TURN_RELEASE_MILLI,
    ensures
        !ready_after(false, ts),
        forall|k: int| 0 <= k < ts.len() ==> !fires_at(false, ts, k),
    decreases ts.len(),
{
    if ts.len() > 0 {
        let prefix = ts.drop_last();
        lemma_cooldown_holds(prefix);
        assert forall|k: int| 0 <= k < ts.len() implies !fires_at(false, ts, k) by {
            if k < prefix.len() {
                assert(ts.take(k) =~= prefix.take(k));
                assert(!fires_at(false, prefix, k));
            } else {
                assert(ts.take(k) =~= prefix);
            }
        }
    }
}

/// After a turn fired at tick `i`, no turn fires at any later tick `j` as
/// long as the deflection never dropped below the release threshold in
/// between: the machine re-arms only through an observed release.
pub proof fn lemma_no_refire_before_release(ready0: bool, ts: Seq<int>, i: int, j: int)
    requires
        0 <= i < j < ts.len(),
        fires_at(ready0, ts, i),
        forall|k: int| i < k < j ==> abs_val(ts[k]) >= TURN_RELEASE_MILLI,
    ensures
        !fires_at(ready0, ts, j),
{
    let fired_tick = ts.take(i + 1);
    let between = ts.subrange(i + 1, j);
    assert(fired_tick.drop_last() =~= ts.take(i));
    assert(fired_tick.last() == ts[i]);
    assert(abs_val(ts[i]) > TURN_ACTIVATE_MILLI);
    assert(!ready_after(ready0, fired_tick));
    assert(ts.take(j) =~= fired_tick + between);
    lemma_ready_after_concat(ready0, fired_tick, between);
    assert(forall|k: int| 0 <= k < between.len() ==> abs_val(between[k]) >= TURN_RELEASE_MILLI);
    lemma_cooldown_holds(between);
    assert(!ready_after(ready0, ts.take(j)));
}

/// Over a contiguous stretch of ticks in which the deflection stays above
/// the activation threshold throughout, at most one turn fires: a first
/// fired turn suppresses every later one.
pub proof fn lemma_one_turn_per_deflection(ready0: bool, ts: Seq<int>, i: int, j: int)
    requires
        0 <= i < j < ts.len(),
        forall|k: int| i <= k <= j ==> abs_val(ts[k]) > TURN_ACTIVATE_MILLI,
        fires_at(ready0, ts, i),
    ensures
        !fires_at(ready0, ts, j),
{
    assert forall|k: int| i < k < j implies abs_val(ts[k]) >= TURN_RELEASE_MILLI by {
        assert(abs_val(ts[k]) > TURN_ACTIVATE_MILLI);
    }
    lemma_no_refire_before_release(ready0, ts, i, j);
}

} // verus!
