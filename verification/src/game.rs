//! Per-body synchronisation state and the tunable thresholds.

use crate::tank::body::Data;
use vstd::prelude::*;

verus! {

/// The last snapshot received for a body and the local time, in
/// milliseconds, at which it arrived.
#[derive(Clone, Copy, Debug, PartialEq, Eq, Structural)]
pub struct MesState {
    pub data: Data,
    pub time: i64,
}

/// The last snapshot sent for the locally controlled body and the time, in
/// milliseconds, accumulated since it was sent.
#[derive(Clone, Copy, Debug, PartialEq, Eq, Structural)]
pub struct OutMessageState {
    pub old_data: Data,
    pub delta_time: u64,
}

/// The thresholds of sending and correcting, in thousandths.
#[derive(Clone, Copy, Debug, PartialEq, Eq, Structural)]
pub struct Tuning {
    /// Shortest time between two snapshots sent for a change of pose alone.
    pub min_out_delta_time: u64,
    /// Longest time a moving body stays without a snapshot.
    pub max_out_delta_time: u64,
    /// Squared planar distance above which positions count as different.
    pub pos_epsilon_qrt: i32,
    /// Turn above which a received heading is corrected towards.
    pub angle_epsilon: i32,
    /// Turn above which a heading counts as changed for sending.
    pub out_angle_epsilon: i32,
}

impl Tuning {
    /// All five thresholds are positive.
    pub open spec fn is_valid(&self) -> bool {
        &&& self.min_out_delta_time > 0
        &&& self.max_out_delta_time > 0
        &&& self.pos_epsilon_qrt > 0
        &&& self.angle_epsilon > 0
        &&& self.out_angle_epsilon > 0
    }

    /// The thresholds as given, or nothing when one of them is not
    /// positive.
    pub fn new(
        min_out_delta_time: u64,
        max_out_delta_time: u64,
        pos_epsilon_qrt: i32,
        angle_epsilon: i32,
        out_angle_epsilon: i32,
    ) -> (r: Option<Tuning>)
        ensures
            r == (if (Tuning {
                min_out_delta_time,
                max_out_delta_time,
                pos_epsilon_qrt,
                angle_epsilon,
                out_angle_epsilon,
            }).is_valid() {
                Some(
                    Tuning {
                        min_out_delta_time,
                        max_out_delta_time,
                        pos_epsilon_qrt,
                        angle_epsilon,
                        out_angle_epsilon,
                    },
                )
            } else {
                None
            }),
    {
        if min_out_delta_time > 0 && max_out_delta_time > 0 && pos_epsilon_qrt > 0 && angle_epsilon
            > 0 && out_angle_epsilon > 0 {
            Some(
                Tuning {
                    min_out_delta_time,
                    max_out_delta_time,
                    pos_epsilon_qrt,
                    angle_epsilon,
                    out_angle_epsilon,
                },
            )
        } else {
            None
        }
    }
}

impl OutMessageState {
    /// The state before anything was sent: a zero snapshot and no time
    /// accumulated.
    pub fn new() -> (r: Self)
        ensures
            r == (OutMessageState { old_data: Data::zero(), delta_time: 0 }),
    {
        OutMessageState { old_data: Data::zero(), delta_time: 0 }
    }
}

} // verus!
