//! Laws of the sending throttle and of the corrective force.

use crate::game::{OutMessageState, Tuning};
use crate::tank::body::{
    accumulated, clamped_length_squared, corrective_force, force_magnitude, is_changed,
    is_started_or_stopped, throttle_emits, throttle_state, Data, Vec3, MAX_LENGTH_SQUARED,
};
use crate::tank::utils::{shortest_turn, squared_length, wrapped, PI, TAU};
use vstd::prelude::*;

verus! {

/// A wrapped angle lies in `(-PI, PI]` and differs from the angle it came
/// from by whole turns; wrapping again changes nothing, and the seam
/// belongs to the positive side.
pub proof fn lemma_wrapped_angle(angle: int)
    ensures
        -PI < wrapped(angle) <= PI,
        (angle - wrapped(angle)) % (TAU as int) == 0,
        wrapped(wrapped(angle)) == wrapped(angle),
        wrapped(angle + TAU) == wrapped(angle),
        wrapped(PI as int) == PI,
        wrapped(-PI) == PI,
{
}

/// Turning from `current` by the shortest turn to `target` arrives at
/// `target`, up to whole turns.
pub proof fn lemma_shortest_turn_arrives(target: int, current: int)
    ensures
        wrapped(current + shortest_turn(target, current)) == wrapped(target),
        -PI < shortest_turn(target, current) <= PI,
{
}

/// The force never exceeds its value at the largest squared distance the
/// law looks at, and beyond that distance it stays at exactly that value:
/// 150. It grows with the distance up to there.
pub proof fn lemma_force_is_bounded(length_squared: int, further: int)
    requires
        0 <= length_squared <= further,
    ensures
        force_magnitude(MAX_LENGTH_SQUARED as int) == 150_000,
        0 <= force_magnitude(length_squared) <= force_magnitude(further) <= 150_000,
        length_squared > MAX_LENGTH_SQUARED ==> force_magnitude(length_squared) == 150_000,
{
    let a = 1_000_000 + clamped_length_squared(length_squared);
    let b = 1_000_000 + clamped_length_squared(further);
    assert(1_000_000 <= a <= b <= 4_000_000);
    assert(1_000_000_000_000 <= a * a <= b * b <= 16_000_000_000_000) by (nonlinear_arith)
        requires
            1_000_000 <= a <= b <= 4_000_000,
    ;
    // At the largest distance the square is known exactly.
    assert(4_000_000 * 4_000_000 == 16_000_000_000_000int);
}

/// Whatever the two positions, a force that is applied has a magnitude
/// between 0 and 150, and exactly 150 when they are further apart than the
/// largest squared distance the law looks at.
pub proof fn lemma_corrective_force_is_bounded(to: Vec3, from: Vec3, tuning: Tuning)
    ensures
        corrective_force(to, from, tuning) matches Some(force) ==> 0 <= force.magnitude <= 150_000
            && force.direction_x == to.x - from.x && force.direction_z == to.z - from.z,
        corrective_force(to, from, tuning) matches Some(force) ==> (squared_length(
            to.x - from.x,
            to.z - from.z,
        ) > MAX_LENGTH_SQUARED ==> force.magnitude == 150_000),
{
    let dx = to.x - from.x;
    let dz = to.z - from.z;
    assert(dx * dx >= 0 && dz * dz >= 0) by (nonlinear_arith);
    lemma_force_is_bounded(squared_length(dx, dz), squared_length(dx, dz));
}

/// With positive thresholds a force that is applied has a direction: the
/// two positions differ in the plane.
pub proof fn lemma_force_has_a_direction(to: Vec3, from: Vec3, tuning: Tuning)
    requires
        tuning.is_valid(),
    ensures
        corrective_force(to, from, tuning) matches Some(force) ==> force.direction_x != 0
            || force.direction_z != 0,
{
    let dx = to.x - from.x;
    let dz = to.z - from.z;
    assert(tuning.pos_epsilon_qrt * 1000 > 0);
    if dx == 0 && dz == 0 {
        assert(squared_length(dx, dz) == 0) by (nonlinear_arith)
            requires
                dx == 0,
                dz == 0,
        ;
    }
}

/// A change of control intent is announced on the tick it happens,
/// whatever the accumulated time and the pose: the snapshot is sent,
/// remembered, and the time starts again from zero.
pub proof fn lemma_transition_emits(state: OutMessageState, tick: u64, live: Data, tuning: Tuning)
    requires
        is_started_or_stopped(state.old_data, live),
    ensures
        throttle_emits(state, tick, live, tuning),
        throttle_state(state, tick, live, tuning) == (OutMessageState {
            old_data: live,
            delta_time: 0,
        }),
{
}

/// Going from rest to motion, or from motion to rest, is announced on the
/// tick it happens, whatever the accumulated time and the pose.
pub proof fn lemma_start_and_stop_emit(
    state: OutMessageState,
    tick: u64,
    live: Data,
    tuning: Tuning,
)
    requires
        state.old_data.is_moved() != live.is_moved(),
    ensures
        is_started_or_stopped(state.old_data, live),
        throttle_emits(state, tick, live, tuning),
        throttle_state(state, tick, live, tuning) == (OutMessageState {
            old_data: live,
            delta_time: 0,
        }),
{
}

/// While the body is exactly as last announced, a snapshot is sent exactly
/// when it moves and the longest silence has passed.
pub proof fn lemma_steady_body_waits(state: OutMessageState, tick: u64, tuning: Tuning)
    requires
        tuning.is_valid(),
    ensures
        throttle_emits(state, tick, state.old_data, tuning) == (state.old_data.is_moved()
            && accumulated(state.delta_time, tick) >= tuning.max_out_delta_time),
{
    assert(!is_changed(state.old_data, state.old_data, tuning)) by {
        assert(tuning.pos_epsilon_qrt * 1000 > 0);
    }
}

/// The sum of the ticks.
pub open spec fn total_time(ticks: Seq<u64>) -> int
    decreases ticks.len(),
{
    if ticks.len() == 0 {
        0
    } else {
        total_time(ticks.drop_last()) + ticks.last()
    }
}

/// The accumulator after a run of ticks throughout which the body is
/// sampled as `live`.
pub open spec fn run_state(
    state: OutMessageState,
    ticks: Seq<u64>,
    live: Data,
    tuning: Tuning,
) -> OutMessageState
    decreases ticks.len(),
{
    if ticks.len() == 0 {
        state
    } else {
        throttle_state(run_state(state, ticks.drop_last(), live, tuning), ticks.last(), live, tuning)
    }
}

/// How many snapshots such a run sends.
pub open spec fn run_emitted(
    state: OutMessageState,
    ticks: Seq<u64>,
    live: Data,
    tuning: Tuning,
) -> nat
    decreases ticks.len(),
{
    if ticks.len() == 0 {
        0
    } else {
        let before = run_state(state, ticks.drop_last(), live, tuning);
        run_emitted(state, ticks.drop_last(), live, tuning) + (if throttle_emits(
            before,
            ticks.last(),
            live,
            tuning,
        ) {
            1nat
        } else {
            0nat
        })
    }
}

/// A run that sends nothing has accumulated all of its ticks.
proof fn lemma_silent_run_accumulates(
    state: OutMessageState,
    ticks: Seq<u64>,
    live: Data,
    tuning: Tuning,
)
    requires
        run_emitted(state, ticks, live, tuning) == 0,
    ensures
        run_state(state, ticks, live, tuning).delta_time == (if state.delta_time + total_time(ticks)
            > u64::MAX {
            u64::MAX as int
        } else {
            state.delta_time + total_time(ticks)
        }),
        total_time(ticks) >= 0,
    decreases ticks.len(),
{
    lemma_total_time_is_not_negative(ticks);
    if ticks.len() > 0 {
        lemma_total_time_is_not_negative(ticks.drop_last());
        lemma_silent_run_accumulates(state, ticks.drop_last(), live, tuning);
    }
}

proof fn lemma_total_time_is_not_negative(ticks: Seq<u64>)
    ensures
        total_time(ticks) >= 0,
    decreases ticks.len(),
{
    if ticks.len() > 0 {
        lemma_total_time_is_not_negative(ticks.drop_last());
    }
}

/// The heartbeat of a moving body: over any run of ticks with a constant
/// non-zero control intent, at most one snapshot is sent per tick, and at
/// least one is sent as soon as the ticks add up to the longest silence,
/// wherever the run starts.
pub proof fn lemma_heartbeat(state: OutMessageState, ticks: Seq<u64>, live: Data, tuning: Tuning)
    requires
        tuning.is_valid(),
        live.is_moved(),
    ensures
        run_emitted(state, ticks, live, tuning) <= ticks.len(),
        total_time(ticks) >= tuning.max_out_delta_time ==> run_emitted(state, ticks, live, tuning)
            >= 1,
    decreases ticks.len(),
{
    if ticks.len() > 0 {
        let front = ticks.drop_last();
        lemma_heartbeat(state, front, live, tuning);
        if run_emitted(state, front, live, tuning) == 0 {
            lemma_silent_run_accumulates(state, front, live, tuning);
        }
    }
}

} // verus!
