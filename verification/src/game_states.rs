//! The game's phases and the data each one owns.
//!
//! Exactly one phase is live at a time; a transition replaces the whole
//! value. The `Playing` phase owns the single mutable aggregate the
//! per-frame update works on: score, level, the craft, the projectiles and
//! the obstacles.

use vstd::prelude::*;
use crate::fixed::FP;
use crate::fixed::SCALAR_LIMIT;
use crate::angle::TURN;
use crate::body::body_wf;
use crate::body::bound_ok;
use crate::bullet::Bullet;
use crate::asteroid::Asteroid;
use crate::space_ship::SpaceShip;

verus! {

/// The frame-sampled input intents the state machine reads: level-triggered
/// holds for steering and edge-triggered presses for the rest.
#[derive(Clone, Copy, PartialEq, Eq, Structural, Debug)]
pub struct InputIntents {
    pub rotate_left: bool,
    pub rotate_right: bool,
    pub thrust: bool,
    pub fire: bool,
    pub confirm: bool,
    pub cancel: bool,
    pub quit: bool,
}

/// The immutable tuning the state machine runs under: the arena bounds and
/// the motion constants, all in fixed-point units.
#[derive(Clone, Copy, PartialEq, Eq, Structural, Debug)]
pub struct GameConfig {
    /// Arena width.
    pub width: i64,
    /// Arena height.
    pub height: i64,
    /// Thrust magnitude per frame while the thrust intent is held.
    pub linear_acceleration: i64,
    /// Heading change per frame, in angle steps, while a steering intent
    /// is held.
    pub rotational_step: i64,
    /// Launch speed of a projectile.
    pub bullet_speed: i64,
    /// Hull width of a fresh craft.
    pub ship_width: i64,
    /// Hull height of a fresh craft.
    pub ship_height: i64,
}

/// The configuration values are in their ranges.
pub open spec fn config_wf(c: GameConfig) -> bool {
    &&& bound_ok(c.width as int)
    &&& bound_ok(c.height as int)
    &&& 0 <= c.linear_acceleration <= SCALAR_LIMIT
    &&& 0 <= c.rotational_step <= TURN
    &&& 0 <= c.bullet_speed <= SCALAR_LIMIT
    &&& 0 <= c.ship_width <= SCALAR_LIMIT
    &&& 0 <= c.ship_height <= SCALAR_LIMIT
}

/// The standard tuning: a 300-unit thrust, a heading step just under a
/// tenth of a radian, 500-unit projectiles and a 20-unit craft hull.
pub fn standard_config(width: i64, height: i64) -> (r: GameConfig)
    requires
        bound_ok(width as int),
        bound_ok(height as int),
    ensures
        r == (GameConfig {
            width,
            height,
            linear_acceleration: 300_000i64,
            rotational_step: 57i64,
            bullet_speed: 500_000i64,
            ship_width: 20_000i64,
            ship_height: 20_000i64,
        }),
        config_wf(r),
{
    GameConfig {
        width,
        height,
        linear_acceleration: 300 * FP,
        rotational_step: 57,
        bullet_speed: 500 * FP,
        ship_width: 20 * FP,
        ship_height: 20 * FP,
    }
}

/// Everything the `Playing` phase owns.
pub struct PlayingInfo {
    pub score: u32,
    pub level: u32,
    pub space_ship: SpaceShip,
    pub bullets: Vec<Bullet>,
    pub asteroids: Vec<Asteroid>,
}

/// A `Playing` aggregate as a frame starts: every body well-formed, none
/// flagged destroyed (destroyed entities are swept out before the frame
/// ends), and the craft's hull dimensions usable.
pub open spec fn playing_wf(info: PlayingInfo) -> bool {
    &&& body_wf(info.space_ship.body)
    &&& !info.space_ship.body.destroyed
    &&& 0 <= info.space_ship.hull_width <= SCALAR_LIMIT
    &&& 0 <= info.space_ship.hull_height <= SCALAR_LIMIT
    &&& forall|i: int|
        0 <= i < info.bullets@.len() ==> body_wf(#[trigger] info.bullets@[i].body)
            && !info.bullets@[i].body.destroyed
    &&& forall|i: int|
        0 <= i < info.asteroids@.len() ==> body_wf(#[trigger] info.asteroids@[i].body)
            && !info.asteroids@[i].body.destroyed
}

/// The game's phase: a tagged union replaced whole at each transition.
pub enum GameState {
    MainMenu,
    Playing { playing_info: PlayingInfo },
    WaveClear { level: u32, score: u32 },
    GameOver { level: u32, score: u32 },
}

/// A state the per-frame update accepts: a live `Playing` aggregate is
/// well-formed.
pub open spec fn game_state_wf(gs: GameState) -> bool {
    match gs {
        GameState::Playing { playing_info } => playing_wf(playing_info),
        _ => true,
    }
}

} // verus!
