//! Core simulation of a top-down arena survival game: a player fights
//! escalating waves of enemies with ranged projectiles while collecting
//! timed power-ups.
//!
//! All simulation state is held in plain integers: positions and
//! velocities are fixed-point values in thousandths of a pixel, angles
//! are whole degrees, and time is milliseconds on a monotonic clock that
//! the caller passes in.  Rendering, input polling and the window loop
//! live outside the library and hand it plain values.

use vstd::prelude::*;

pub mod collisionck;
pub mod diagnostics;
pub mod enemy;
pub mod gamestate;
pub mod geom;
pub mod humanoid;
pub mod oneoffanim;
pub mod player;
pub mod powerup;
pub mod projectile;
pub mod rng;
pub mod seqs;
pub mod timer;
pub mod traits;
pub mod trig;

verus! {

} // verus!
