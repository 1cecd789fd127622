use ping_pong::components::{
    Ball, Collider, Dimensions, Entity, Pedal, PedalLeft, PedalRight, Position, Velocity,
};
use ping_pong::game_config::Config;
use ping_pong::game_plugin::{Keys, TheGame};
use ping_pong::query::{single, Selector};
use ping_pong::states::GameState;
use ping_pong::units::UNIT;

const NO_KEYS: Keys = Keys { up: false, down: false, w: false, s: false, space: false };
const SPACE: Keys = Keys { up: false, down: false, w: false, s: false, space: true };

fn config() -> Config {
    Config::new(1920 * UNIT, 1080 * UNIT)
}

fn serve() -> Velocity {
    Velocity { x: -4_000, y: 2_500 }
}

fn playing_with_ball_at(x: i32, y: i32, vx: i32, vy: i32) -> TheGame {
    let mut game = TheGame::new(config());
    game.state = GameState::Play;
    game.entities[2].position = Position { x, y };
    game.entities[2].velocity = Some(Velocity { x: vx, y: vy });
    game
}

#[test]
fn a_game_starts_stopped() {
    assert_eq!(GameState::default(), GameState::Stop);
    let game = TheGame::new(config());
    assert_eq!(game.state, GameState::Stop);
    assert_eq!(game.config, config());
}

#[test]
fn spawning_creates_the_five_entities_in_order() {
    let entities = TheGame::spawn_entities(&config());
    let paddle_size = Dimensions { width: 20_000, height: 150_000 };
    let border_size = Dimensions { width: 1_880_000, height: 5_000 };
    let expected = vec![
        Entity {
            position: Position { x: -930_000, y: 0 },
            dimensions: paddle_size,
            velocity: Some(Velocity { x: 0, y: 0 }),
            collider: Some(Collider::Left),
            ball: None,
            pedal: Some(Pedal),
            pedal_left: Some(PedalLeft),
            pedal_right: None,
        },
        Entity {
            position: Position { x: 930_000, y: 0 },
            dimensions: paddle_size,
            velocity: Some(Velocity { x: 0, y: 0 }),
            collider: Some(Collider::Right),
            ball: None,
            pedal: Some(Pedal),
            pedal_left: None,
            pedal_right: Some(PedalRight),
        },
        Entity {
            position: Position { x: 0, y: 0 },
            dimensions: Dimensions { width: 40_000, height: 40_000 },
            velocity: Some(Velocity { x: 0, y: 0 }),
            collider: None,
            ball: Some(Ball),
            pedal: None,
            pedal_left: None,
            pedal_right: None,
        },
        Entity {
            position: Position { x: 0, y: 520_000 },
            dimensions: border_size,
            velocity: None,
            collider: Some(Collider::Top),
            ball: None,
            pedal: None,
            pedal_left: None,
            pedal_right: None,
        },
        Entity {
            position: Position { x: 0, y: -520_000 },
            dimensions: border_size,
            velocity: None,
            collider: Some(Collider::Bottom),
            ball: None,
            pedal: None,
            pedal_left: None,
            pedal_right: None,
        },
    ];
    assert_eq!(entities, expected);
    assert_eq!(TheGame::new(config()).entities, expected);
}

#[test]
fn ball_start_position_comes_from_the_configuration() {
    let shifted = Config { ball_x: 12_345, ball_radius: 7, ..config() };
    let game = TheGame::new(shifted);
    assert_eq!(game.entities[2].position, Position { x: 12_345, y: 0 });
    assert_eq!(game.entities[2].dimensions, Dimensions { width: 14, height: 14 });
}

#[test]
fn selectors_find_the_cast() {
    let game = TheGame::new(config());
    assert_eq!(single(&game.entities, Selector::LeftPedal), Some(0));
    assert_eq!(single(&game.entities, Selector::RightPedal), Some(1));
    assert_eq!(single(&game.entities, Selector::Ball), Some(2));
    assert_eq!(single(&game.entities, Selector::MovingBall), Some(2));
    assert_eq!(single(&game.entities, Selector::FreeBall), Some(2));
}

#[test]
fn selector_gives_no_answer_for_none_or_several() {
    let mut game = TheGame::new(config());
    let ball = game.entities[2];
    game.entities.push(ball);
    assert_eq!(single(&game.entities, Selector::Ball), None);
    assert_eq!(single(&game.entities, Selector::LeftPedal), Some(0));
    game.entities.push(ball);
    assert_eq!(single(&game.entities, Selector::Ball), None);
    assert_eq!(single(&Vec::new(), Selector::Ball), None);
    assert_eq!(single(&vec![game.entities[0]], Selector::RightPedal), None);
}

#[test]
fn selectors_differ_in_what_they_ask_of_a_ball() {
    let mut bare = TheGame::new(config()).entities[2];
    bare.velocity = None;
    assert_eq!(single(&vec![bare], Selector::Ball), Some(0));
    assert_eq!(single(&vec![bare], Selector::MovingBall), None);
    assert_eq!(single(&vec![bare], Selector::FreeBall), None);
    let mut walled = TheGame::new(config()).entities[2];
    walled.collider = Some(Collider::Top);
    assert_eq!(single(&vec![walled], Selector::Ball), Some(0));
    assert_eq!(single(&vec![walled], Selector::MovingBall), Some(0));
    assert_eq!(single(&vec![walled], Selector::FreeBall), None);
}

#[test]
fn stopped_game_ignores_everything_but_the_launch_key() {
    let mut game = TheGame::new(config());
    let before = game.entities.clone();
    let keys = Keys { up: true, down: true, w: true, s: true, space: false };
    for _ in 0..10 {
        game.tick_with(&keys, serve());
        assert_eq!(game.state, GameState::Stop);
        assert_eq!(game.entities, before);
    }
}

#[test]
fn launch_key_starts_the_game_and_serves_the_ball() {
    let mut game = TheGame::new(config());
    let before = game.entities.clone();
    let keys = Keys { up: true, down: false, w: false, s: true, space: true };
    game.tick_with(&keys, serve());
    assert_eq!(game.state, GameState::Play);
    assert_eq!(game.entities[2].velocity, Some(serve()));
    assert_eq!(game.entities[2].position, Position { x: 0, y: 0 });
    assert_eq!(game.entities[0], before[0]);
    assert_eq!(game.entities[1], before[1]);
    assert_eq!(game.entities[3], before[3]);
    assert_eq!(game.entities[4], before[4]);
}

#[test]
fn launch_key_means_nothing_while_playing() {
    let mut game = playing_with_ball_at(0, 0, -4_000, 0);
    game.play_game_with(true, Velocity { x: -3_001, y: 6_999 });
    assert_eq!(game.state, GameState::Play);
    assert_eq!(game.entities[2].velocity, Some(Velocity { x: -4_000, y: 0 }));
}

#[test]
fn first_frame_of_play_moves_the_ball_by_its_serve() {
    let mut game = TheGame::new(config());
    game.tick_with(&SPACE, serve());
    game.tick_with(&NO_KEYS, serve());
    assert_eq!(game.state, GameState::Play);
    assert_eq!(game.entities[2].position, Position { x: -4_000, y: 2_500 });
    assert_eq!(game.entities[2].velocity, Some(serve()));
}

#[test]
fn a_frame_reads_keys_then_moves_then_collides() {
    let mut game = playing_with_ball_at(-905_000, 0, -5_000, 1_000);
    let keys = Keys { up: true, down: false, w: true, s: false, space: false };
    game.tick_with(&keys, serve());
    assert_eq!(game.entities[0].velocity, Some(Velocity { x: 0, y: 4_000 }));
    assert_eq!(game.entities[0].position, Position { x: -930_000, y: 4_000 });
    assert_eq!(game.entities[1].velocity, Some(Velocity { x: 0, y: 4_000 }));
    assert_eq!(game.entities[1].position, Position { x: 930_000, y: 4_000 });
    assert_eq!(game.entities[2].position, Position { x: -910_000, y: 1_000 });
    assert_eq!(game.entities[2].velocity, Some(Velocity { x: 5_750, y: 5_000 }));
    assert_eq!(game.state, GameState::Play);
}

#[test]
fn ball_past_the_right_edge_stops_the_game() {
    let mut game = playing_with_ball_at(958_000, 300_000, 5_000, -2_000);
    game.tick_with(&NO_KEYS, serve());
    assert_eq!(game.state, GameState::Stop);
    assert_eq!(game.entities[2].position, Position { x: 0, y: 0 });
    assert_eq!(game.entities[2].velocity, Some(Velocity { x: 0, y: 0 }));
}

#[test]
fn ball_past_the_left_edge_stops_the_game() {
    let mut game = playing_with_ball_at(-958_000, -300_000, -5_000, 2_000);
    game.tick_with(&NO_KEYS, serve());
    assert_eq!(game.state, GameState::Stop);
    assert_eq!(game.entities[2].position, Position { x: 0, y: 0 });
    assert_eq!(game.entities[2].velocity, Some(Velocity { x: 0, y: 0 }));
}

#[test]
fn ball_on_the_edge_is_still_in_play() {
    let mut game = playing_with_ball_at(955_000, 300_000, 5_000, 0);
    game.tick_with(&NO_KEYS, serve());
    assert_eq!(game.state, GameState::Play);
    assert_eq!(game.entities[2].position, Position { x: 960_000, y: 300_000 });
    let mut left = playing_with_ball_at(-955_000, 300_000, -5_000, 0);
    left.tick_with(&NO_KEYS, serve());
    assert_eq!(left.state, GameState::Play);
    assert_eq!(left.entities[2].position.x, -960_000);
}

#[test]
fn edge_of_an_odd_window_is_not_rounded() {
    let mut game = playing_with_ball_at(0, 0, 0, 0);
    game.config.window_width = 1_920_001;
    game.entities[2].position.x = 960_000;
    game.game_over();
    assert_eq!(game.state, GameState::Play);
    game.entities[2].position.x = 960_001;
    game.game_over();
    assert_eq!(game.state, GameState::Stop);
    assert_eq!(game.entities[2].position, Position { x: 960_001, y: 0 });
}

#[test]
fn end_of_round_check_moves_nothing() {
    let mut game = TheGame::new(Config::new(1280 * UNIT, 720 * UNIT));
    game.state = GameState::Play;
    game.entities[2].position = Position { x: 641_000, y: 7_000 };
    game.entities[2].velocity = Some(Velocity { x: 5_000, y: 1_000 });
    let before = game.entities.clone();
    let config = game.config;
    game.game_over();
    assert_eq!(game.state, GameState::Stop);
    assert_eq!(game.entities, before);
    assert_eq!(game.config, config);
    game.reset_ball();
    assert_eq!(game.entities[2].position, Position { x: 0, y: 0 });
    assert_eq!(game.entities[2].velocity, Some(Velocity { x: 0, y: 0 }));
}

#[test]
fn end_of_round_check_leaves_a_ball_inside_in_play() {
    let mut game = playing_with_ball_at(-960_000, 539_000, -15_000, 10_000);
    let before = game.entities.clone();
    game.game_over();
    assert_eq!(game.state, GameState::Play);
    assert_eq!(game.entities, before);
}

#[test]
fn the_frame_that_stops_the_game_resets_the_ball() {
    let mut game = TheGame::new(Config::new(1280 * UNIT, 720 * UNIT));
    game.state = GameState::Play;
    game.entities[2].position = Position { x: 636_000, y: 6_000 };
    game.entities[2].velocity = Some(Velocity { x: 5_000, y: 1_000 });
    game.tick_with(&NO_KEYS, serve());
    assert_eq!(game.state, GameState::Stop);
    assert_eq!(game.entities[2].position, Position { x: 0, y: 0 });
    assert_eq!(game.entities[2].velocity, Some(Velocity { x: 0, y: 0 }));
    let mut drawn = TheGame::new(Config::new(1280 * UNIT, 720 * UNIT));
    drawn.state = GameState::Play;
    drawn.entities[2].position = Position { x: -636_000, y: 6_000 };
    drawn.entities[2].velocity = Some(Velocity { x: -5_000, y: 1_000 });
    drawn.tick(&NO_KEYS);
    assert_eq!(drawn.state, GameState::Stop);
    assert_eq!(drawn.entities[2].position, Position { x: 0, y: 0 });
    assert_eq!(drawn.entities[2].velocity, Some(Velocity { x: 0, y: 0 }));
}

#[test]
fn a_stopped_game_is_not_reset_again() {
    let mut game = TheGame::new(config());
    game.entities[2].position = Position { x: 2_000_000, y: 5 };
    game.entities[2].velocity = Some(Velocity { x: 1, y: 1 });
    let before = game.entities.clone();
    game.tick_with(&NO_KEYS, serve());
    assert_eq!(game.state, GameState::Stop);
    assert_eq!(game.entities, before);
}

#[test]
fn end_of_round_check_only_counts_in_play() {
    let mut game = TheGame::new(config());
    game.entities[2].position = Position { x: 2_000_000, y: 5 };
    game.entities[2].velocity = Some(Velocity { x: 1, y: 1 });
    let before = game.entities.clone();
    game.game_over();
    assert_eq!(game.state, GameState::Stop);
    assert_eq!(game.entities, before);
}

#[test]
fn ball_reset_goes_to_the_configured_start() {
    let mut game = playing_with_ball_at(77_000, -88_000, 9_000, -9_000);
    game.config.ball_x = 1_500;
    let before = game.entities.clone();
    game.reset_ball();
    assert_eq!(game.entities[2].position, Position { x: 1_500, y: 0 });
    assert_eq!(game.entities[2].velocity, Some(Velocity { x: 0, y: 0 }));
    assert_eq!(game.entities[2].dimensions, before[2].dimensions);
    assert_eq!(game.entities[0], before[0]);
    assert_eq!(game.entities[1], before[1]);
    assert_eq!(game.state, GameState::Play);
}

#[test]
fn resetting_twice_is_resetting_once() {
    let mut game = playing_with_ball_at(77_000, -88_000, 9_000, -9_000);
    game.reset_ball();
    let once = game.entities.clone();
    game.reset_ball();
    assert_eq!(game.entities, once);
}

#[test]
fn reset_without_a_single_moving_ball_does_nothing() {
    let mut game = playing_with_ball_at(77_000, -88_000, 9_000, -9_000);
    game.entities[2].velocity = None;
    let before = game.entities.clone();
    game.reset_ball();
    assert_eq!(game.entities, before);
    game.launch_ball(serve());
    assert_eq!(game.entities, before);
    let mut none = TheGame { config: config(), state: GameState::Play, entities: Vec::new() };
    none.reset_ball();
    none.launch_ball(serve());
    none.game_over();
    assert!(none.entities.is_empty());
    assert_eq!(none.state, GameState::Play);
}

#[test]
fn two_balls_never_end_the_round() {
    let mut game = playing_with_ball_at(2_000_000, 0, 0, 0);
    let twin = game.entities[2];
    game.entities.push(twin);
    game.game_over();
    assert_eq!(game.state, GameState::Play);
}

#[test]
fn ball_without_velocity_ends_the_round_but_is_not_reset() {
    let mut game = playing_with_ball_at(2_000_000, 7, 0, 0);
    game.entities[2].velocity = None;
    game.tick_with(&NO_KEYS, serve());
    assert_eq!(game.state, GameState::Stop);
    assert_eq!(game.entities[2].position, Position { x: 2_000_000, y: 7 });
    assert_eq!(game.entities[2].velocity, None);
}

#[test]
fn launching_sets_the_velocity_and_nothing_else() {
    let mut game = TheGame::new(config());
    let before = game.entities.clone();
    game.launch_ball(Velocity { x: -3_001, y: -7_000 });
    assert_eq!(game.entities[2].velocity, Some(Velocity { x: -3_001, y: -7_000 }));
    assert_eq!(game.entities[2].position, before[2].position);
    assert_eq!(game.state, GameState::Stop);
}

#[test]
fn drawn_serves_are_leftward_and_within_range() {
    for _ in 0..500 {
        let mut game = TheGame::new(config());
        game.set_ball_velocity();
        let served = game.entities[2].velocity.unwrap();
        assert!(-5_000 <= served.x && served.x < -3_000);
        assert!(-7_000 <= served.y && served.y < 7_000);
        assert_eq!(game.entities[2].position, Position { x: 0, y: 0 });
    }
}

#[test]
fn drawn_serves_differ_between_rounds() {
    let mut seen = Vec::new();
    for _ in 0..200 {
        let mut game = TheGame::new(config());
        game.tick(&SPACE);
        assert_eq!(game.state, GameState::Play);
        let served = game.entities[2].velocity.unwrap();
        assert!(-5_000 <= served.x && served.x < -3_000);
        assert!(-7_000 <= served.y && served.y < 7_000);
        if !seen.contains(&served) {
            seen.push(served);
        }
    }
    assert!(seen.len() > 1);
}

#[test]
fn launch_check_draws_only_when_it_starts_the_game() {
    let mut game = TheGame::new(config());
    game.play_game(false);
    assert_eq!(game.state, GameState::Stop);
    assert_eq!(game.entities[2].velocity, Some(Velocity { x: 0, y: 0 }));
    game.play_game(true);
    assert_eq!(game.state, GameState::Play);
    let served = game.entities[2].velocity.unwrap();
    assert!(-5_000 <= served.x && served.x < -3_000);
    game.play_game(true);
    assert_eq!(game.entities[2].velocity, Some(served));
}

#[test]
fn a_round_runs_from_serve_to_stop() {
    let mut game = TheGame::new(config());
    game.tick_with(&SPACE, Velocity { x: -5_000, y: 0 });
    let mut frames = 0;
    while game.state == GameState::Play && frames < 10_000 {
        game.tick_with(&Keys { up: false, down: false, w: false, s: true, space: false }, serve());
        frames += 1;
    }
    assert_eq!(game.state, GameState::Stop);
    assert_eq!(game.entities[2].position, Position { x: 0, y: 0 });
    assert_eq!(game.entities[2].velocity, Some(Velocity { x: 0, y: 0 }));
    assert_eq!(game.entities[0].position, Position { x: -930_000, y: -445_000 });
    assert_eq!(frames, 193);
}

#[test]
fn invariants_hold_through_a_long_game() {
    let mut game = TheGame::new(config());
    let mut seed: u32 = 12_345;
    for frame in 0..20_000 {
        seed = seed.wrapping_mul(1_103_515_245).wrapping_add(12_345);
        let bits = seed >> 16;
        let keys = Keys {
            up: bits & 1 != 0,
            down: bits & 2 != 0,
            w: bits & 4 != 0,
            s: bits & 8 != 0,
            space: bits & 48 != 0,
        };
        let x = -5_000 + (bits % 2_000) as i32;
        let y = -7_000 + ((bits / 7) % 14_000) as i32;
        let was = game.state;
        game.tick_with(&keys, Velocity { x, y });
        assert_eq!(game.entities.len(), 5, "frame {}", frame);
        assert_eq!(single(&game.entities, Selector::FreeBall), Some(2));
        assert_eq!(single(&game.entities, Selector::LeftPedal), Some(0));
        assert_eq!(single(&game.entities, Selector::RightPedal), Some(1));
        for paddle in &game.entities[0..2] {
            assert!(-445_000 <= paddle.position.y && paddle.position.y <= 445_000);
            assert_eq!(paddle.velocity.unwrap().x, 0);
        }
        assert_eq!(game.entities[0].position.x, -930_000);
        assert_eq!(game.entities[1].position.x, 930_000);
        let ball = game.entities[2];
        let speed = ball.velocity.unwrap();
        assert!(-15_000 <= speed.x && speed.x <= 15_000);
        assert!(-10_000 <= speed.y && speed.y <= 10_000);
        if game.state == GameState::Stop {
            assert_eq!(ball.position, Position { x: 0, y: 0 });
            assert_eq!(speed, Velocity { x: 0, y: 0 });
        } else {
            assert!(-960_000 <= ball.position.x && ball.position.x <= 960_000);
        }
        if was == GameState::Stop && game.state == GameState::Play {
            assert_eq!(speed, Velocity { x, y });
        }
    }
}
