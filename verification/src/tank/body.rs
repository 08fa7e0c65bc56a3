//! Movement snapshots of a vehicle body: when to send one, and how to steer
//! a body towards the pose that a received one predicts.
//!
//! All scalars are thousandths (see [`crate::tank::utils`]); squared lengths
//! are therefore millionths.

use crate::game::{MesState, OutMessageState, Tuning};
use crate::tank::utils::{
    abs_value, delta_dir, div_floor, length_squared, lemma_product_bounds, magnitude, normalize,
    saturate, saturated, shortest_turn, squared_length, wrapped, PI, UNIT,
};
use vstd::prelude::*;

verus! {

/// A planar vector.
#[derive(Clone, Copy, Debug, PartialEq, Eq, Structural)]
pub struct Vec2 {
    pub x: i32,
    pub y: i32,
}

/// A vector in space; `y` is the height.
#[derive(Clone, Copy, Debug, PartialEq, Eq, Structural)]
pub struct Vec3 {
    pub x: i32,
    pub y: i32,
    pub z: i32,
}

/// One movement snapshot: the control intent and the planar pose.
#[derive(Clone, Copy, Debug, PartialEq, Eq, Structural)]
pub struct Data {
    /// Control intent: `x` turns, `y` drives.
    pub movement: Vec2,
    /// Planar position: world `x` and world `z`.
    pub pos: Vec2,
    /// Heading about the up axis.
    pub angle: i32,
}

impl Data {
    /// The snapshot of a body at rest at the origin.
    pub open spec fn spec_zero() -> Data {
        Data { movement: Vec2 { x: 0, y: 0 }, pos: Vec2 { x: 0, y: 0 }, angle: 0 }
    }

    /// Whether the control intent is non-zero.
    pub open spec fn spec_is_moved(&self) -> bool {
        self.movement.x != 0 || self.movement.y != 0
    }

    /// The snapshot of a body at rest at the origin.
    #[verifier::when_used_as_spec(spec_zero)]
    pub fn zero() -> (r: Data)
        ensures
            r == Data::spec_zero(),
    {
        Data { movement: Vec2 { x: 0, y: 0 }, pos: Vec2 { x: 0, y: 0 }, angle: 0 }
    }

    /// Whether the control intent is non-zero.
    #[verifier::when_used_as_spec(spec_is_moved)]
    pub fn is_moved(&self) -> (r: bool)
        ensures
            r == self.spec_is_moved(),
    {
        self.movement.x != 0 || self.movement.y != 0
    }
}

impl Default for Data {
    fn default() -> (r: Self)
        ensures
            r == Data::zero(),
    {
        Data::zero()
    }
}

/// Sleep threshold, linear and angular, of a body that was just set in
/// motion by its own controls: below zero, so that it cannot rest.
pub const DRIVEN_THRESHOLD: i32 = -1_000;

/// What the physics body and the wheels are told about motion.
#[derive(Clone, Copy, Debug, PartialEq, Eq, Structural)]
pub struct MotionHint {
    pub linear_threshold: i32,
    pub angular_threshold: i32,
    /// Whether the body may rest.
    pub sleeping: bool,
    /// The movement handed on to the wheels, or nothing to clear it.
    pub wheel_movement: Option<Vec2>,
}

/// The hint for a body whose squared movement is compared with
/// `threshold`: awake with the movement handed on when above it, resting
/// with the movement cleared otherwise.
pub open spec fn motion_hint(
    movement: Vec2,
    threshold: int,
    awake: (i32, i32),
    resting: (i32, i32),
) -> MotionHint {
    if squared_length(movement.x as int, movement.y as int) > threshold {
        MotionHint {
            linear_threshold: awake.0,
            angular_threshold: awake.1,
            sleeping: false,
            wheel_movement: Some(movement),
        }
    } else {
        MotionHint {
            linear_threshold: resting.0,
            angular_threshold: resting.1,
            sleeping: true,
            wheel_movement: None,
        }
    }
}

fn make_hint(movement: Vec2, threshold: i64, awake: (i32, i32), resting: (i32, i32)) -> (r:
    MotionHint)
    ensures
        r == motion_hint(movement, threshold as int, awake, resting),
{
    if length_squared(movement.x as i64, movement.y as i64) > threshold as i128 {
        MotionHint {
            linear_threshold: awake.0,
            angular_threshold: awake.1,
            sleeping: false,
            wheel_movement: Some(movement),
        }
    } else {
        MotionHint {
            linear_threshold: resting.0,
            angular_threshold: resting.1,
            sleeping: true,
            wheel_movement: None,
        }
    }
}

/// The hint that goes with a change of control intent: movement counts
/// above a squared length of 0.001.
pub open spec fn control_hint(movement: Vec2) -> MotionHint {
    motion_hint(movement, 1_000, (DRIVEN_THRESHOLD, DRIVEN_THRESHOLD), (1_000, 10_000))
}

/// The hint that goes with a received snapshot: movement counts above a
/// squared length of 0.1.
pub open spec fn net_hint(movement: Vec2) -> MotionHint {
    motion_hint(movement, 100_000, (2_000, 10_000), (2_000, 10_000))
}

/// Time accumulated after one more tick; it stops at the largest value.
pub open spec fn accumulated(delta_time: u64, tick: u64) -> u64 {
    if delta_time + tick > u64::MAX {
        u64::MAX
    } else {
        (delta_time + tick) as u64
    }
}

/// Whether the control intent is non-zero.
pub open spec fn is_moving(live: Data) -> bool {
    live.is_moved()
}

/// Whether the pose differs from the one last sent: by more than
/// `out_angle_epsilon` in heading, or by more than `pos_epsilon_qrt` in
/// squared planar distance.
pub open spec fn is_changed(old_data: Data, live: Data, tuning: Tuning) -> bool {
    ||| abs_value(shortest_turn(live.angle as int, old_data.angle as int))
        > tuning.out_angle_epsilon
    ||| squared_length(live.pos.x - old_data.pos.x, live.pos.y - old_data.pos.y)
        > tuning.pos_epsilon_qrt * UNIT
}

/// Whether either component of the control intent differs from the one
/// last sent.
pub open spec fn is_started_or_stopped(old_data: Data, live: Data) -> bool {
    live.movement.x != old_data.movement.x || live.movement.y != old_data.movement.y
}

/// Whether a snapshot is sent, `elapsed` being the time since the last one.
pub open spec fn should_emit(old_data: Data, elapsed: u64, live: Data, tuning: Tuning) -> bool {
    ||| is_changed(old_data, live, tuning) && elapsed >= tuning.min_out_delta_time
    ||| is_moving(live) && elapsed >= tuning.max_out_delta_time
    ||| is_started_or_stopped(old_data, live)
}

/// The accumulator after one tick with a body present.
pub open spec fn throttle_state(
    state: OutMessageState,
    tick: u64,
    live: Data,
    tuning: Tuning,
) -> OutMessageState {
    let elapsed = accumulated(state.delta_time, tick);
    if should_emit(state.old_data, elapsed, live, tuning) {
        OutMessageState { old_data: live, delta_time: 0 }
    } else {
        OutMessageState { old_data: state.old_data, delta_time: elapsed }
    }
}

/// Whether one tick with a body present sends a snapshot.
pub open spec fn throttle_emits(
    state: OutMessageState,
    tick: u64,
    live: Data,
    tuning: Tuning,
) -> bool {
    should_emit(state.old_data, accumulated(state.delta_time, tick), live, tuning)
}

/// Decides, once per tick, whether the locally controlled body is announced
/// again. `body` is the snapshot that would be sent now, or nothing when
/// there is no such body this tick; `tick` is the time since the last call.
///
/// With no body nothing changes. Otherwise the tick is added to the
/// accumulated time, and when a snapshot is due it is appended to `output`,
/// remembered as the last one sent, and the time starts again from zero.
/// A hint for the physics body and the wheels is returned exactly when the
/// control intent differs from the one last sent.
pub fn update_player_body_control(
    body: Option<Data>,
    tick: u64,
    out_data_state: &mut OutMessageState,
    output: &mut Vec<Data>,
    tuning: &Tuning,
) -> (hint: Option<MotionHint>)
    ensures
        match body {
            None => {
                &&& *final(out_data_state) == *old(out_data_state)
                &&& final(output)@ == old(output)@
                &&& hint is None
            },
            Some(live) => {
                &&& *final(out_data_state) == throttle_state(
                    *old(out_data_state),
                    tick,
                    live,
                    *tuning,
                )
                &&& final(output)@ == (if throttle_emits(
                    *old(out_data_state),
                    tick,
                    live,
                    *tuning,
                ) {
                    old(output)@.push(live)
                } else {
                    old(output)@
                })
                &&& hint == (if is_started_or_stopped(old(out_data_state).old_data, live) {
                    Some(control_hint(live.movement))
                } else {
                    None
                })
            },
        },
{
    let live = match body {
        Some(live) => live,
        None => {
            return None;
        },
    };
    let old_data = out_data_state.old_data;
    let elapsed: u64 = if tick > u64::MAX - out_data_state.delta_time {
        u64::MAX
    } else {
        out_data_state.delta_time + tick
    };
    out_data_state.delta_time = elapsed;

    let moving = live.is_moved();
    let turn = delta_dir(live.angle, old_data.angle);
    let distance = length_squared(
        live.pos.x as i64 - old_data.pos.x as i64,
        live.pos.y as i64 - old_data.pos.y as i64,
    );
    let pose_changed = magnitude(turn) > tuning.out_angle_epsilon as i64 || distance
        > tuning.pos_epsilon_qrt as i128 * 1000;
    let intent_changed = live.movement.x != old_data.movement.x || live.movement.y
        != old_data.movement.y;

    if (pose_changed && elapsed >= tuning.min_out_delta_time) || (moving && elapsed
        >= tuning.max_out_delta_time) || intent_changed {
        out_data_state.old_data = live;
        output.push(live);
        out_data_state.delta_time = 0;
    }
    if intent_changed {
        let awake = (DRIVEN_THRESHOLD, DRIVEN_THRESHOLD);
        Some(make_hint(live.movement, 1_000, awake, (1_000, 10_000)))
    } else {
        None
    }
}

/// The rotation about the up axis by some angle, as its cosine and sine.
#[derive(Clone, Copy, Debug, PartialEq, Eq, Structural)]
pub struct Basis {
    pub cos: i32,
    pub sin: i32,
}

/// Where a body is now: its position in space and its heading.
#[derive(Clone, Copy, Debug, PartialEq, Eq, Structural)]
pub struct BodyPose {
    pub position: Vec3,
    pub yaw: i32,
}

/// A force along `(direction_x, direction_z)` in the plane, of the given
/// magnitude.
#[derive(Clone, Copy, Debug, PartialEq, Eq, Structural)]
pub struct Force {
    pub direction_x: i64,
    pub direction_z: i64,
    pub magnitude: i32,
}

/// What one tick of correction asks of the physics body.
#[derive(Clone, Copy, Debug, PartialEq, Eq, Structural)]
pub struct Correction {
    /// The pose the body is steered towards.
    pub target_pos: Vec3,
    pub target_angle: i32,
    /// The force to set, or nothing to leave the force as it is.
    pub force: Option<Force>,
    /// The torque about the up axis to set, or nothing to leave it.
    pub torque: Option<i32>,
    pub hint: MotionHint,
}

/// The largest squared distance that the force law looks at: 3.
pub const MAX_LENGTH_SQUARED: i64 = 3_000_000;

/// The largest turn corrected in one tick: 0.1.
pub const MAX_TURN: i32 = 100;

/// Twice the time by which the snapshot is extrapolated, that time being
/// the time since receipt plus half the round trip.
pub open spec fn doubled_delay(state: MesState, now: i64, latency: i64) -> int {
    2 * (now - state.time) + latency
}

/// The heading the body is expected to have now: while it turns, the
/// snapshot's heading less a tenth of the turn intent for each second of
/// delay; the snapshot's heading otherwise. The product of thousandths and
/// doubled milliseconds is brought back to thousandths by 2 * 1000, and the
/// tenth makes 20 000.
pub open spec fn target_angle(state: MesState, now: i64, latency: i64) -> int {
    if state.data.is_moved() && state.data.movement.x != 0 {
        wrapped(
            state.data.angle - (state.data.movement.x * doubled_delay(state, now, latency))
                / 20_000,
        )
    } else {
        state.data.angle as int
    }
}

/// The way the body is expected to have gone since the snapshot, before it
/// is turned into the world: while it drives, a fifth of the movement for
/// each second of delay; nothing otherwise. Quotients are rounded down.
pub open spec fn travel(state: MesState, now: i64, latency: i64) -> (int, int) {
    if state.data.is_moved() && state.data.movement.y != 0 {
        (
            (state.data.movement.x * doubled_delay(state, now, latency)) / 10_000,
            (state.data.movement.y * doubled_delay(state, now, latency)) / 10_000,
        )
    } else {
        (0, 0)
    }
}

/// The planar vector `v` turned about the up axis by `basis`.
pub open spec fn rotated(basis: Basis, v: (int, int)) -> (int, int) {
    (
        (v.0 * basis.cos + v.1 * basis.sin) / (UNIT as int),
        (v.1 * basis.cos - v.0 * basis.sin) / (UNIT as int),
    )
}

/// The position the body is expected to have now, at the height it has.
pub open spec fn target_pos(
    state: MesState,
    now: i64,
    latency: i64,
    basis: Basis,
    height: i32,
) -> Vec3 {
    let way = rotated(basis, travel(state, now, latency));
    Vec3 {
        x: saturated(state.data.pos.x + way.0) as i32,
        y: height,
        z: saturated(state.data.pos.y + way.1) as i32,
    }
}

/// The squared distance as the force law sees it: never more than 3.
pub open spec fn clamped_length_squared(length_squared: int) -> int {
    if length_squared > MAX_LENGTH_SQUARED {
        MAX_LENGTH_SQUARED as int
    } else {
        length_squared
    }
}

/// Magnitude of the corrective force at a squared distance `d`:
/// `((1 + min(d, 3))^2 - 1) * 10`.
pub open spec fn force_magnitude(length_squared: int) -> int {
    let c = clamped_length_squared(length_squared);
    ((1_000_000 + c) * (1_000_000 + c) - 1_000_000_000_000) / 100_000_000
}

/// The turn still to make, as the torque law sees it: never more than 0.1.
pub open spec fn clamped_turn(target_angle: int, yaw: int) -> int {
    let turn = shortest_turn(target_angle, yaw);
    if turn > MAX_TURN {
        MAX_TURN as int
    } else {
        turn
    }
}

/// Magnitude of the corrective torque at a turn `t`: `((1 + t)^2 - 1) * 10`.
pub open spec fn torque_magnitude(turn: int) -> int {
    ((1_000 + turn) * (1_000 + turn) - 1_000_000) / 100
}

/// The force that steers a body at `from` towards `to`, if they are further
/// apart than the tolerance.
pub open spec fn corrective_force(to: Vec3, from: Vec3, tuning: Tuning) -> Option<Force> {
    let dx = to.x - from.x;
    let dz = to.z - from.z;
    let distance = squared_length(dx, dz);
    if clamped_length_squared(distance) > tuning.pos_epsilon_qrt * UNIT {
        Some(
            Force {
                direction_x: dx as i64,
                direction_z: dz as i64,
                magnitude: force_magnitude(distance) as i32,
            },
        )
    } else {
        None
    }
}

/// The torque that turns a body heading `yaw` towards `target_angle`, if
/// the turn is larger than the tolerance.
pub open spec fn corrective_torque(target_angle: int, yaw: int, tuning: Tuning) -> Option<i32> {
    let turn = clamped_turn(target_angle, yaw);
    if abs_value(turn) > tuning.angle_epsilon {
        Some(torque_magnitude(turn) as i32)
    } else {
        None
    }
}

/// All that one tick of correction asks for.
pub open spec fn correction(
    state: MesState,
    now: i64,
    latency: i64,
    basis: Basis,
    pose: BodyPose,
    tuning: Tuning,
) -> Correction {
    let angle = target_angle(state, now, latency);
    let pos = target_pos(state, now, latency, basis, pose.position.y);
    Correction {
        target_pos: pos,
        target_angle: angle as i32,
        force: corrective_force(pos, pose.position, tuning),
        torque: corrective_torque(angle, pose.yaw as int, tuning),
        hint: net_hint(state.data.movement),
    }
}

/// The heading that the body of a received snapshot is expected to have at
/// time `now`, `latency` being the round trip to the sender.
pub fn predicted_angle(state: &MesState, now: i64, latency: i64) -> (r: i32)
    ensures
        r == target_angle(*state, now, latency),
        state.data.is_moved() && state.data.movement.x != 0 ==> -PI < r <= PI,
{
    let data = state.data;
    if data.is_moved() && data.movement.x != 0 {
        let delay: i128 = 2 * (now as i128 - state.time as i128) + latency as i128;
        proof {
            lemma_product_bounds(
                data.movement.x as int,
                delay as int,
                0x8000_0000,
                0x4_0000_0000_0000_0000,
            );
        }
        let shift: i128 = div_floor(data.movement.x as i128 * delay, 20_000);
        normalize(data.angle as i128 - shift)
    } else {
        data.angle
    }
}

/// The position that the body of a received snapshot is expected to have
/// at time `now`, at the given height. `basis` turns the way gone into the
/// world.
pub fn predicted_pos(state: &MesState, now: i64, latency: i64, basis: Basis, height: i32) -> (r:
    Vec3)
    ensures
        r == target_pos(*state, now, latency, basis, height),
{
    let data = state.data;
    let (way_x, way_z): (i128, i128) = if data.is_moved() && data.movement.y != 0 {
        let delay: i128 = 2 * (now as i128 - state.time as i128) + latency as i128;
        proof {
            lemma_product_bounds(
                data.movement.x as int,
                delay as int,
                0x8000_0000,
                0x4_0000_0000_0000_0000,
            );
            lemma_product_bounds(
                data.movement.y as int,
                delay as int,
                0x8000_0000,
                0x4_0000_0000_0000_0000,
            );
        }
        (
            div_floor(data.movement.x as i128 * delay, 10_000),
            div_floor(data.movement.y as i128 * delay, 10_000),
        )
    } else {
        (0, 0)
    };
    proof {
        let limit: int = 0x10_0000_0000_0000_0000_0000;
        assert(-limit <= way_x <= limit && -limit <= way_z <= limit);
        lemma_product_bounds(way_x as int, basis.cos as int, limit, 0x8000_0000);
        lemma_product_bounds(way_z as int, basis.sin as int, limit, 0x8000_0000);
        lemma_product_bounds(way_z as int, basis.cos as int, limit, 0x8000_0000);
        lemma_product_bounds(way_x as int, basis.sin as int, limit, 0x8000_0000);
    }
    let turned_x: i128 = div_floor(way_x * basis.cos as i128 + way_z * basis.sin as i128, 1_000);
    let turned_z: i128 = div_floor(way_z * basis.cos as i128 - way_x * basis.sin as i128, 1_000);
    Vec3 {
        x: saturate(data.pos.x as i128 + turned_x),
        y: height,
        z: saturate(data.pos.y as i128 + turned_z),
    }
}

/// The force that steers a body at `from` towards `to`.
pub fn force_towards(to: Vec3, from: Vec3, tuning: &Tuning) -> (r: Option<Force>)
    ensures
        r == corrective_force(to, from, *tuning),
{
    let dx: i64 = to.x as i64 - from.x as i64;
    let dz: i64 = to.z as i64 - from.z as i64;
    let distance = length_squared(dx, dz);
    let clamped: i64 = if distance > 3_000_000 {
        3_000_000
    } else {
        distance as i64
    };
    if clamped > tuning.pos_epsilon_qrt as i64 * 1_000 {
        let grown: i64 = 1_000_000 + clamped;
        proof {
            lemma_product_bounds(grown as int, grown as int, 4_000_000, 4_000_000);
            assert(grown * grown >= 1_000_000_000_000) by (nonlinear_arith)
                requires
                    grown >= 1_000_000,
            ;
        }
        let magnitude: i64 = (grown * grown - 1_000_000_000_000) / 100_000_000;
        Some(Force { direction_x: dx, direction_z: dz, magnitude: magnitude as i32 })
    } else {
        None
    }
}

/// The torque that turns a body heading `yaw` towards `target_angle`.
pub fn torque_towards(target_angle: i32, yaw: i32, tuning: &Tuning) -> (r: Option<i32>)
    ensures
        r == corrective_torque(target_angle as int, yaw as int, *tuning),
{
    let full = delta_dir(target_angle, yaw);
    let turn: i32 = if full > 100 {
        100
    } else {
        full
    };
    if magnitude(turn) > tuning.angle_epsilon as i64 {
        let grown: i128 = 1_000 + turn as i128;
        proof {
            lemma_product_bounds(grown as int, grown as int, 2_200, 2_200);
        }
        Some(div_floor(grown * grown - 1_000_000, 100) as i32)
    } else {
        None
    }
}

/// Steers one remotely controlled body towards the pose that its last
/// received snapshot predicts for the time `now`.
///
/// `state` is that snapshot with its time of receipt, or nothing when none
/// has arrived yet: then nothing is asked of the body. `latency` is the
/// round trip to the sender, `basis` the rotation by the predicted heading
/// (see [`predicted_angle`]), and `pose` where the body is now.
pub fn correct_body(
    state: Option<&MesState>,
    now: i64,
    latency: i64,
    basis: Basis,
    pose: &BodyPose,
    tuning: &Tuning,
) -> (r: Option<Correction>)
    ensures
        r == (match state {
            Some(state) => Some(correction(*state, now, latency, basis, *pose, *tuning)),
            None => None,
        }),
{
    let state = match state {
        Some(state) => state,
        None => {
            return None;
        },
    };
    let target_angle = predicted_angle(state, now, latency);
    let target_pos = predicted_pos(state, now, latency, basis, pose.position.y);
    let force = force_towards(target_pos, pose.position, tuning);
    let torque = torque_towards(target_angle, pose.yaw, tuning);
    let hint = make_hint(state.data.movement, 100_000, (2_000, 10_000), (2_000, 10_000));
    Some(Correction { target_pos, target_angle, force, torque, hint })
}

/// One remotely controlled body as a tick of correction finds it.
#[derive(Clone, Copy, Debug, PartialEq, Eq, Structural)]
pub struct RemoteBody {
    /// The last snapshot received for it, if any.
    pub state: Option<MesState>,
    /// The round trip to its sender.
    pub latency: i64,
    /// The rotation by its predicted heading.
    pub basis: Basis,
    /// Where it is now.
    pub pose: BodyPose,
}

impl RemoteBody {
    /// What a tick of correction at time `now` asks of this body: nothing
    /// while no snapshot has arrived for it.
    pub open spec fn correction(self, now: i64, tuning: Tuning) -> Option<Correction> {
        match self.state {
            Some(state) => Some(
                correction(state, now, self.latency, self.basis, self.pose, tuning),
            ),
            None => None,
        }
    }
}

/// One tick of correction over all remotely controlled bodies: each body is
/// corrected on its own, and the answers come back in the order of the
/// bodies.
pub fn update_body_position_from_net(bodies: &Vec<RemoteBody>, now: i64, tuning: &Tuning) -> (r:
    Vec<Option<Correction>>)
    ensures
        r@.len() == bodies@.len(),
        forall|i: int| 0 <= i < bodies@.len() ==> r@[i] == bodies@[i].correction(now, *tuning),
{
    let mut corrections: Vec<Option<Correction>> = Vec::new();
    let mut i: usize = 0;
    while i < bodies.len()
        invariant
            i <= bodies.len(),
            corrections@.len() == i,
            forall|j: int| 0 <= j < i ==> corrections@[j] == bodies@[j].correction(now, *tuning),
        decreases bodies.len() - i,
    {
        let body = &bodies[i];
        let correction = match &body.state {
            Some(state) => correct_body(
                Some(state),
                now,
                body.latency,
                body.basis,
                &body.pose,
                tuning,
            ),
            None => None,
        };
        corrections.push(correction);
        i += 1;
    }
    corrections
}

} // verus!
