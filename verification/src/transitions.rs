//! The stop/play state machine: when the state changes, and what happens to
//! the ball when it does.

use vstd::prelude::*;
use crate::components::Entity;
use crate::components::Position;
use crate::components::Velocity;
use crate::game_config::is_start_velocity;
use crate::game_config::Config;
use crate::game_plugin::TheGame;
use crate::game_plugin::World;
use crate::query::is_single;
use crate::query::single;
use crate::query::Selector;
use crate::states::GameState;

verus! {

/// Whether a ball centred at `x` has left a window of the given width,
/// which is centred on zero. A ball exactly on the edge is still inside.
pub open spec fn outside_window(x: int, window_width: int) -> bool {
    2 * x < -window_width || 2 * x > window_width
}

/// Whether there is exactly one ball and it has left the window.
pub open spec fn ball_is_out(entities: Seq<Entity>, config: Config) -> bool {
    exists|i: int| #[trigger]
        is_single(entities, Selector::Ball, i) && outside_window(
            entities[i].position.x as int,
            config.window_width as int,
        )
}

/// The entity at rest at the ball's start position.
pub open spec fn at_start(entity: Entity, config: Config) -> Entity {
    Entity {
        position: Position { x: config.ball_x, y: 0 },
        velocity: Some(Velocity { x: 0, y: 0 }),
        ..entity
    }
}

/// The entities after the ball has been reset: the one moving ball, if there
/// is exactly one, rests at its start position; nothing else changes.
pub open spec fn reset(entities: Seq<Entity>, config: Config) -> Seq<Entity> {
    Seq::new(
        entities.len(),
        |i: int|
            if is_single(entities, Selector::MovingBall, i) {
                at_start(entities[i], config)
            } else {
                entities[i]
            },
    )
}

/// The entities after the ball has been served: the one moving ball, if
/// there is exactly one, has the velocity `serve`; nothing else changes.
pub open spec fn launched(entities: Seq<Entity>, serve: Velocity) -> Seq<Entity> {
    Seq::new(
        entities.len(),
        |i: int|
            if is_single(entities, Selector::MovingBall, i) {
                Entity { velocity: Some(serve), ..entities[i] }
            } else {
                entities[i]
            },
    )
}

/// Resetting puts the one moving ball at rest at its start position,
/// wherever it was and however fast.
pub proof fn reset_rests_ball_at_start(entities: Seq<Entity>, config: Config, ball: int)
    requires
        is_single(entities, Selector::MovingBall, ball),
    ensures
        reset(entities, config)[ball].position == (Position { x: config.ball_x, y: 0 }),
        reset(entities, config)[ball].velocity == Some(Velocity { x: 0, y: 0 }),
{
}

/// Resetting twice is resetting once.
pub proof fn reset_is_idempotent(entities: Seq<Entity>, config: Config)
    ensures
        reset(reset(entities, config), config) == reset(entities, config),
{
    let once = reset(entities, config);
    assert forall|i: int| 0 <= i < entities.len() implies (is_single(
        once,
        Selector::MovingBall,
        i,
    ) <==> is_single(entities, Selector::MovingBall, i)) by {
        assert forall|j: int| 0 <= j < entities.len() implies (Selector::MovingBall.selects(
            #[trigger] once[j],
        ) <==> Selector::MovingBall.selects(entities[j])) by {}
        if is_single(entities, Selector::MovingBall, i) {
            assert forall|other: int|
                0 <= other < once.len() && Selector::MovingBall.selects(
                    #[trigger] once[other],
                ) implies other == i by {
                assert(Selector::MovingBall.selects(entities[other]));
            }
        }
        if is_single(once, Selector::MovingBall, i) {
            assert forall|other: int|
                0 <= other < entities.len() && Selector::MovingBall.selects(
                    #[trigger] entities[other],
                ) implies other == i by {
                assert(Selector::MovingBall.selects(once[other]));
            }
        }
    }
    assert(reset(once, config) =~= once);
}

impl World {
    /// The game after the end-of-round check: a game in play whose one ball
    /// has left the window stops. The check moves nothing; the ball is reset
    /// by what follows on entering the stopped state.
    pub open spec fn after_game_over(self) -> World {
        if self.state == GameState::Play && ball_is_out(self.entities, self.config) {
            World { state: GameState::Stop, ..self }
        } else {
            self
        }
    }

    /// The game after the launch key has been read: a stopped game whose
    /// launch key is held starts to play, and the ball is served with `serve`
    /// on the way.
    pub open spec fn after_play_game(self, space: bool, serve: Velocity) -> World {
        if self.state == GameState::Stop && space {
            World { state: GameState::Play, entities: launched(self.entities, serve), ..self }
        } else {
            self
        }
    }
}

impl TheGame {
    /// What happens on entering the stopped state: the ball goes back to its
    /// start position and comes to rest. Without exactly one moving ball
    /// nothing happens.
    pub fn reset_ball(&mut self)
        ensures
            final(self).config == old(self).config,
            final(self).state == old(self).state,
            final(self).entities@ == reset(old(self).entities@, old(self).config),
    {
        match single(&self.entities, Selector::MovingBall) {
            Some(at) => {
                let ball: Entity = self.entities[at];
                self.entities[at] = Entity {
                    position: Position { x: self.config.ball_x, y: 0 },
                    velocity: Some(Velocity::zero()),
                    ..ball
                };
            },
            None => {},
        }
        assert(self.entities@ =~= reset(old(self).entities@, old(self).config));
    }

    /// Serves the ball with the given velocity. Without exactly one moving
    /// ball nothing happens.
    pub fn launch_ball(&mut self, serve: Velocity)
        ensures
            final(self).config == old(self).config,
            final(self).state == old(self).state,
            final(self).entities@ == launched(old(self).entities@, serve),
    {
        match single(&self.entities, Selector::MovingBall) {
            Some(at) => {
                let ball: Entity = self.entities[at];
                self.entities[at] = Entity { velocity: Some(serve), ..ball };
            },
            None => {},
        }
        assert(self.entities@ =~= launched(old(self).entities@, serve));
    }

    /// What happens on entering the playing state: the ball is served with a
    /// velocity drawn anew, leftwards and at a random angle.
    pub fn set_ball_velocity(&mut self)
        ensures
            final(self).config == old(self).config,
            final(self).state == old(self).state,
            exists|serve: Velocity| #[trigger]
                is_start_velocity(serve) && final(self).entities@ == launched(
                    old(self).entities@,
                    serve,
                ),
    {
        let serve = Velocity {
            x: self.config.ball_start_speed_x(),
            y: self.config.ball_start_speed_y(),
        };
        assert(is_start_velocity(serve));
        self.launch_ball(serve);
    }

    /// The end-of-round check. When the game is in play and its one ball has
    /// left the window, the game stops. No entity is touched: resetting the
    /// ball belongs to entering the stopped state. Without exactly one ball
    /// nothing happens.
    pub fn game_over(&mut self)
        ensures
            final(self).config == old(self).config,
            final(self).entities@ == old(self).entities@,
            final(self).state == if old(self).state == GameState::Play && ball_is_out(
                old(self).entities@,
                old(self).config,
            ) {
                GameState::Stop
            } else {
                old(self).state
            },
            final(self)@ == old(self)@.after_game_over(),
    {
        if self.state == GameState::Play {
            match single(&self.entities, Selector::Ball) {
                Some(at) => {
                    let x: i64 = 2 * (self.entities[at].position.x as i64);
                    let width: i64 = self.config.window_width as i64;
                    if x < -width || x > width {
                        assert(is_single(self.entities@, Selector::Ball, at as int));
                        self.state = GameState::Stop;
                    }
                },
                None => {},
            }
        }
    }

    /// The launch check with a given serve. When the game is stopped and the
    /// launch key is held, the game starts to play and the ball is served
    /// with `serve`.
    pub fn play_game_with(&mut self, space: bool, serve: Velocity)
        ensures
            final(self)@ == old(self)@.after_play_game(space, serve),
    {
        if self.state == GameState::Stop && space {
            self.state = GameState::Play;
            self.launch_ball(serve);
        }
    }

    /// The launch check. When the game is stopped and the launch key is held,
    /// the game starts to play and the ball is served with a velocity drawn
    /// anew.
    pub fn play_game(&mut self, space: bool)
        ensures
            exists|serve: Velocity| #[trigger]
                is_start_velocity(serve) && final(self)@ == old(self)@.after_play_game(
                    space,
                    serve,
                ),
    {
        if self.state == GameState::Stop && space {
            self.state = GameState::Play;
            self.set_ball_velocity();
        } else {
            let ghost idle = Velocity { x: crate::game_config::BALL_START_SPEED_X_LOW, y: 0 };
            assert(is_start_velocity(idle));
            assert(self@ == old(self)@.after_play_game(space, idle));
        }
    }
}

} // verus!
