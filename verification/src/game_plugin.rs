//! The game: its configuration, its state and its entities.

use vstd::prelude::*;
use crate::components::Ball;
use crate::components::Collider;
use crate::components::Dimensions;
use crate::components::Entity;
use crate::components::Pedal;
use crate::components::PedalLeft;
use crate::components::PedalRight;
use crate::components::Position;
use crate::components::Velocity;
use crate::game_config::Config;
use crate::states::GameState;

verus! {

/// A game in progress. The entities keep the order in which they were
/// spawned; systems visit them in that order.
#[derive(Clone, Debug)]
pub struct TheGame {
    pub config: Config,
    pub state: GameState,
    pub entities: Vec<Entity>,
}

/// A game as plain values: what the contracts speak of.
pub struct World {
    pub config: Config,
    pub state: GameState,
    pub entities: Seq<Entity>,
}

impl View for TheGame {
    type V = World;

    open spec fn view(&self) -> World {
        World { config: self.config, state: self.state, entities: self.entities@ }
    }
}

/// The keys held during one frame.
#[derive(Clone, Copy, Debug, PartialEq, Eq)]
pub struct Keys {
    /// Accelerates the right paddle.
    pub up: bool,
    /// Decelerates the right paddle.
    pub down: bool,
    /// Accelerates the left paddle.
    pub w: bool,
    /// Decelerates the left paddle.
    pub s: bool,
    /// Launches the ball.
    pub space: bool,
}

/// A paddle at rest at height zero. `left` tells the side.
pub open spec fn spawned_pedal(config: Config, left: bool) -> Entity {
    Entity {
        position: Position { x: if left { config.left_pedal_x } else { config.right_pedal_x }, y: 0 },
        dimensions: Dimensions { width: config.pedal_width, height: config.pedal_length },
        velocity: Some(Velocity { x: 0, y: 0 }),
        collider: Some(if left { Collider::Left } else { Collider::Right }),
        ball: None,
        pedal: Some(Pedal),
        pedal_left: if left { Some(PedalLeft) } else { None },
        pedal_right: if left { None } else { Some(PedalRight) },
    }
}

/// The ball at rest at its start position. Its bounding box is the square
/// around the circle: one diameter wide and high.
pub open spec fn spawned_ball(config: Config) -> Entity {
    Entity {
        position: Position { x: config.ball_x, y: 0 },
        dimensions: Dimensions {
            width: (2 * config.ball_radius) as i32,
            height: (2 * config.ball_radius) as i32,
        },
        velocity: Some(Velocity { x: 0, y: 0 }),
        collider: None,
        ball: Some(Ball),
        pedal: None,
        pedal_left: None,
        pedal_right: None,
    }
}

/// A border, centred horizontally. `top` tells which one. Borders have no
/// velocity.
pub open spec fn spawned_border(config: Config, top: bool) -> Entity {
    Entity {
        position: Position { x: 0, y: if top { config.top_border_y } else { config.bottom_border_y } },
        dimensions: Dimensions { width: config.border_length, height: config.border_thickness },
        velocity: None,
        collider: Some(if top { Collider::Top } else { Collider::Bottom }),
        ball: None,
        pedal: None,
        pedal_left: None,
        pedal_right: None,
    }
}

/// Everything a game consists of, in spawning order: the left paddle, the
/// right paddle, the ball, the top border and the bottom border.
pub open spec fn spawned(config: Config) -> Seq<Entity> {
    seq![
        spawned_pedal(config, true),
        spawned_pedal(config, false),
        spawned_ball(config),
        spawned_border(config, true),
        spawned_border(config, false),
    ]
}

impl TheGame {
    /// Creates the two paddles, the ball and the two borders of a game.
    pub fn spawn_entities(config: &Config) -> (entities: Vec<Entity>)
        requires
            i32::MIN <= 2 * config.ball_radius <= i32::MAX,
        ensures
            entities@ == spawned(*config),
    {
        let pedal_size = Dimensions { width: config.pedal_width, height: config.pedal_length };
        let border_size = Dimensions {
            width: config.border_length,
            height: config.border_thickness,
        };
        let diameter: i32 = 2 * config.ball_radius;
        let mut entities: Vec<Entity> = Vec::new();
        entities.push(
            Entity {
                position: Position { x: config.left_pedal_x, y: 0 },
                dimensions: pedal_size,
                velocity: Some(Velocity::zero()),
                collider: Some(Collider::Left),
                ball: None,
                pedal: Some(Pedal),
                pedal_left: Some(PedalLeft),
                pedal_right: None,
            },
        );
        entities.push(
            Entity {
                position: Position { x: config.right_pedal_x, y: 0 },
                dimensions: pedal_size,
                velocity: Some(Velocity::zero()),
                collider: Some(Collider::Right),
                ball: None,
                pedal: Some(Pedal),
                pedal_left: None,
                pedal_right: Some(PedalRight),
            },
        );
        entities.push(
            Entity {
                position: Position { x: config.ball_x, y: 0 },
                dimensions: Dimensions { width: diameter, height: diameter },
                velocity: Some(Velocity::zero()),
                collider: None,
                ball: Some(Ball),
                pedal: None,
                pedal_left: None,
                pedal_right: None,
            },
        );
        entities.push(
            Entity {
                position: Position { x: 0, y: config.top_border_y },
                dimensions: border_size,
                velocity: None,
                collider: Some(Collider::Top),
                ball: None,
                pedal: None,
                pedal_left: None,
                pedal_right: None,
            },
        );
        entities.push(
            Entity {
                position: Position { x: 0, y: config.bottom_border_y },
                dimensions: border_size,
                velocity: None,
                collider: Some(Collider::Bottom),
                ball: None,
                pedal: None,
                pedal_left: None,
                pedal_right: None,
            },
        );
        assert(entities@ =~= spawned(*config));
        entities
    }

    /// A stopped game with freshly spawned entities.
    pub fn new(config: Config) -> (game: TheGame)
        requires
            i32::MIN <= 2 * config.ball_radius <= i32::MAX,
        ensures
            game.config == config,
            game.state == GameState::Stop,
            game.entities@ == spawned(config),
            config.wf() && config.admits_serves() ==> game@.sound(),
    {
        proof {
            if config.wf() && config.admits_serves() {
                crate::invariants::spawned_game_is_sound(config);
            }
        }
        let entities = TheGame::spawn_entities(&config);
        TheGame { config, state: GameState::Stop, entities }
    }
}

} // verus!
