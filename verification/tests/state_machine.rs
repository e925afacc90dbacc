use asteroids::asteroid::Asteroid;
use asteroids::asteroid::AsteroidSizes;
use asteroids::bullet::Bullet;
use asteroids::fixed::Vec2;
use asteroids::game_state_machine::update_game_state;
use asteroids::game_states::GameConfig;
use asteroids::game_states::GameState;
use asteroids::game_states::InputIntents;
use asteroids::game_states::PlayingInfo;
use asteroids::game_states::standard_config;
use asteroids::space_ship::SpaceShip;

fn idle() -> InputIntents {
    InputIntents {
        rotate_left: false,
        rotate_right: false,
        thrust: false,
        fire: false,
        confirm: false,
        cancel: false,
        quit: false,
    }
}

fn arena() -> GameConfig {
    standard_config(800_000, 600_000)
}

fn v(x: i64, y: i64) -> Vec2 {
    Vec2 { x, y }
}

fn far_ship() -> SpaceShip {
    SpaceShip::new(20_000, 20_000, v(700_000, 500_000))
}

#[test]
fn menu_confirm_starts_the_first_wave() {
    let mut state = GameState::MainMenu;
    let inputs = InputIntents { confirm: true, ..idle() };
    let quit = update_game_state(&mut state, 0, &inputs, &arena());
    assert!(!quit);
    match state {
        GameState::Playing { playing_info } => {
            assert_eq!(playing_info.score, 0);
            assert_eq!(playing_info.level, 1);
            assert_eq!(playing_info.asteroids.len(), 1);
            assert!(playing_info.bullets.is_empty());
            assert_eq!(playing_info.space_ship.body.position, v(400_000, 300_000));
            assert!(matches!(playing_info.asteroids[0].size, AsteroidSizes::Large));
        },
        _ => panic!("confirm in the menu must start playing"),
    }
}

#[test]
fn menu_quit_is_reported_and_the_menu_stays() {
    let mut state = GameState::MainMenu;
    let inputs = InputIntents { quit: true, ..idle() };
    let quit = update_game_state(&mut state, 0, &inputs, &arena());
    assert!(quit);
    assert!(matches!(state, GameState::MainMenu));
}

#[test]
fn menu_ignores_a_frame_without_intents() {
    let mut state = GameState::MainMenu;
    let quit = update_game_state(&mut state, 16, &idle(), &arena());
    assert!(!quit);
    assert!(matches!(state, GameState::MainMenu));
}

#[test]
fn projectile_hit_scores_and_splits_the_obstacle() {
    let asteroid = Asteroid::new(v(100_000, 100_000), 0, &AsteroidSizes::Large);
    let bullet = Bullet::new(v(100_000, 100_000), 0, 500_000);
    let info = PlayingInfo {
        score: 5,
        level: 2,
        space_ship: far_ship(),
        bullets: vec![bullet],
        asteroids: vec![asteroid],
    };
    let mut state = GameState::Playing { playing_info: info };
    let quit = update_game_state(&mut state, 0, &idle(), &arena());
    assert!(!quit);
    match state {
        GameState::Playing { playing_info } => {
            assert_eq!(playing_info.score, 25);
            assert_eq!(playing_info.level, 2);
            assert!(playing_info.bullets.is_empty());
            assert_eq!(playing_info.asteroids.len(), 3);
            for c in &playing_info.asteroids {
                assert!(matches!(c.size, AsteroidSizes::Medium));
                assert_eq!(c.body.position, v(100_000, 100_000));
            }
        },
        _ => panic!("the wave goes on while children remain"),
    }
}

#[test]
fn clearing_the_last_obstacle_ends_the_wave() {
    let asteroid = Asteroid::new(v(100_000, 100_000), 0, &AsteroidSizes::Small);
    let bullet = Bullet::new(v(100_000, 100_000), 0, 500_000);
    let info = PlayingInfo {
        score: 7,
        level: 3,
        space_ship: far_ship(),
        bullets: vec![bullet],
        asteroids: vec![asteroid],
    };
    let mut state = GameState::Playing { playing_info: info };
    update_game_state(&mut state, 0, &idle(), &arena());
    match state {
        GameState::WaveClear { level, score } => {
            assert_eq!(level, 3);
            assert_eq!(score, 107);
        },
        _ => panic!("an emptied obstacle collection must clear the wave"),
    }
}

#[test]
fn craft_collision_ends_the_game_with_the_standing_score() {
    let asteroid = Asteroid::new(v(100_000, 100_000), 0, &AsteroidSizes::Large);
    let ship = SpaceShip::new(20_000, 20_000, v(100_000, 100_000));
    let info = PlayingInfo {
        score: 11,
        level: 4,
        space_ship: ship,
        bullets: vec![],
        asteroids: vec![asteroid],
    };
    let mut state = GameState::Playing { playing_info: info };
    update_game_state(&mut state, 0, &idle(), &arena());
    match state {
        GameState::GameOver { level, score } => {
            assert_eq!(level, 4);
            assert_eq!(score, 11);
        },
        _ => panic!("a destroyed craft must end the game"),
    }
}

#[test]
fn cancel_returns_to_the_menu_and_discards_the_wave() {
    let asteroid = Asteroid::new(v(100_000, 100_000), 0, &AsteroidSizes::Large);
    let info = PlayingInfo {
        score: 9,
        level: 2,
        space_ship: far_ship(),
        bullets: vec![],
        asteroids: vec![asteroid],
    };
    let mut state = GameState::Playing { playing_info: info };
    let inputs = InputIntents { cancel: true, ..idle() };
    update_game_state(&mut state, 0, &inputs, &arena());
    assert!(matches!(state, GameState::MainMenu));
}

#[test]
fn fire_launches_a_projectile_from_the_craft() {
    let asteroid = Asteroid::new(v(100_000, 100_000), 0, &AsteroidSizes::Large);
    let info = PlayingInfo {
        score: 0,
        level: 1,
        space_ship: far_ship(),
        bullets: vec![],
        asteroids: vec![asteroid],
    };
    let mut state = GameState::Playing { playing_info: info };
    let inputs = InputIntents { fire: true, ..idle() };
    update_game_state(&mut state, 0, &inputs, &arena());
    match state {
        GameState::Playing { playing_info } => {
            assert_eq!(playing_info.bullets.len(), 1);
            let b = &playing_info.bullets[0];
            assert_eq!(b.body.position, v(700_000, 500_000));
            assert_eq!(b.body.velocity, v(500_000, 0));
            assert_eq!(playing_info.score, 0);
        },
        _ => panic!("firing far from every obstacle keeps playing"),
    }
}

#[test]
fn steering_and_thrust_intents_move_the_craft() {
    let asteroid = Asteroid::new(v(100_000, 100_000), 0, &AsteroidSizes::Large);
    let info = PlayingInfo {
        score: 0,
        level: 1,
        space_ship: far_ship(),
        bullets: vec![],
        asteroids: vec![asteroid],
    };
    let mut state = GameState::Playing { playing_info: info };
    let inputs = InputIntents { rotate_left: true, thrust: true, ..idle() };
    update_game_state(&mut state, 0, &inputs, &arena());
    match state {
        GameState::Playing { playing_info } => {
            assert_eq!(playing_info.space_ship.body.rotation, 57);
            assert!(playing_info.space_ship.is_thrusting);
        },
        _ => panic!("steering keeps playing"),
    }
}

#[test]
fn projectile_leaving_the_arena_vanishes() {
    // One second of flight carries the projectile past the right edge;
    // the destroy policy flags it and the end-of-frame filter drops it.
    let asteroid = Asteroid::new(v(400_000, 300_000), 900, &AsteroidSizes::Large);
    let bullet = Bullet::new(v(795_000, 100_000), 0, 500_000);
    let info = PlayingInfo {
        score: 0,
        level: 1,
        space_ship: far_ship(),
        bullets: vec![bullet],
        asteroids: vec![asteroid],
    };
    let mut state = GameState::Playing { playing_info: info };
    update_game_state(&mut state, 1_000, &idle(), &arena());
    match state {
        GameState::Playing { playing_info } => {
            assert!(playing_info.bullets.is_empty());
            assert_eq!(playing_info.score, 0);
            // The obstacle drifted along its heading meanwhile.
            assert_eq!(playing_info.asteroids[0].body.position, v(400_000, 350_000));
        },
        _ => panic!("losing a projectile off the edge keeps playing"),
    }
}

#[test]
fn obstacle_crossing_the_edge_wraps_to_the_opposite_side() {
    let asteroid = Asteroid::new(v(790_000, 300_000), 0, &AsteroidSizes::Large);
    let info = PlayingInfo {
        score: 0,
        level: 1,
        space_ship: far_ship(),
        bullets: vec![],
        asteroids: vec![asteroid],
    };
    let mut state = GameState::Playing { playing_info: info };
    update_game_state(&mut state, 1_000, &idle(), &arena());
    match state {
        GameState::Playing { playing_info } => {
            assert_eq!(playing_info.asteroids[0].body.position, v(0, 300_000));
        },
        _ => panic!("a wrapping obstacle keeps playing"),
    }
}

#[test]
fn wave_clear_confirm_starts_the_next_level_with_the_score_kept() {
    let mut state = GameState::WaveClear { level: 2, score: 40 };
    let inputs = InputIntents { confirm: true, ..idle() };
    update_game_state(&mut state, 0, &inputs, &arena());
    match state {
        GameState::Playing { playing_info } => {
            assert_eq!(playing_info.score, 40);
            assert_eq!(playing_info.level, 3);
            assert_eq!(playing_info.asteroids.len(), 3);
            assert!(playing_info.bullets.is_empty());
            assert_eq!(playing_info.space_ship.body.position, v(400_000, 300_000));
        },
        _ => panic!("confirm after a cleared wave must start the next"),
    }
}

#[test]
fn wave_clear_waits_without_confirm() {
    let mut state = GameState::WaveClear { level: 2, score: 40 };
    update_game_state(&mut state, 16, &idle(), &arena());
    match state {
        GameState::WaveClear { level, score } => {
            assert_eq!(level, 2);
            assert_eq!(score, 40);
        },
        _ => panic!("a cleared wave waits for confirm"),
    }
}

#[test]
fn game_over_confirm_returns_to_the_menu() {
    let mut state = GameState::GameOver { level: 5, score: 90 };
    let inputs = InputIntents { confirm: true, ..idle() };
    update_game_state(&mut state, 0, &inputs, &arena());
    assert!(matches!(state, GameState::MainMenu));
}

#[test]
fn game_over_keeps_its_payload_without_confirm() {
    let mut state = GameState::GameOver { level: 5, score: 90 };
    update_game_state(&mut state, 16, &idle(), &arena());
    match state {
        GameState::GameOver { level, score } => {
            assert_eq!(level, 5);
            assert_eq!(score, 90);
        },
        _ => panic!("a finished game waits for confirm"),
    }
}
