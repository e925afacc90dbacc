//! Verified core of a 2D arcade game: a craft in a bounded toroidal arena
//! destroys drifting obstacles with projectiles while a state machine drives
//! phase transitions and the per-frame update.
//!
//! All geometry and kinematics run on fixed-point integers: lengths are held
//! in milli-units (`FP` per unit) and angles in tenth-degree steps (`TURN`
//! per full turn), so every computation has an exact mathematical model.
//! Rendering, input polling and frame pacing live outside this crate and
//! exchange plain values with it.

pub mod angle;
pub mod asteroid;
pub mod body;
pub mod bullet;
pub mod collision;
pub mod fixed;
pub mod game_state_machine;
pub mod game_states;
pub mod laws;
mod rng;
pub mod screen_util;
pub mod shape;
pub mod space_ship;
