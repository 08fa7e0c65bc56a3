//! Network-synchronised control of a simulated vehicle body, and packing of
//! edge-triggered input actions into sixteen bits.
//!
//! * [`input`] binds keys and mouse buttons to actions, samples their edge
//!   state once per tick, and packs and unpacks the held actions;
//!   [`input_laws`] holds what is proved of packing and sampling.
//! * [`tank::body`] decides when the locally controlled body is announced
//!   and steers remote bodies towards the pose their last snapshot
//!   predicts; [`tank::laws`] holds what is proved of both.
//! * [`game`] holds the per-body state and the thresholds.
//!
//! The vehicle model computes on integers only: every scalar is a number of
//! thousandths, and quotients are rounded down.

pub mod game;
pub mod input;
pub mod input_laws;
pub mod tank;
