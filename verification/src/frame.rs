//! One frame of the game: which systems run in which state, and in what
//! order.

use vstd::prelude::*;
use crate::collision::collided;
use crate::components::Entity;
use crate::components::Velocity;
use crate::game_config::is_start_velocity;
use crate::game_plugin::Keys;
use crate::game_plugin::TheGame;
use crate::game_plugin::World;
use crate::input::steered;
use crate::motion::moved_all;
use crate::query::Selector;
use crate::states::GameState;
use crate::transitions::reset;

verus! {

impl World {
    /// The entities of a game in play after the keys have set the speed of
    /// both paddles, the right one first.
    pub open spec fn steered_by(self, keys: Keys) -> Seq<Entity> {
        steered(
            steered(self.entities, Selector::RightPedal, keys.up, keys.down, self.config),
            Selector::LeftPedal,
            keys.w,
            keys.s,
            self.config,
        )
    }

    /// The entities of a game in play after the keys have been read and
    /// everything has moved.
    pub open spec fn moved_by(self, keys: Keys) -> Seq<Entity> {
        moved_all(self.steered_by(keys), self.config)
    }

    /// A game in play one frame later, before the end-of-round check: the
    /// keys set the paddles' speeds, everything moves, and the ball meets the
    /// colliders, in this order.
    pub open spec fn played(self, keys: Keys) -> World {
        World { entities: collided(self.moved_by(keys), self.config), ..self }
    }

    /// A game in play after the end-of-round check and what follows from it:
    /// where the check stops the game, the stopped state is entered and the
    /// ball is reset.
    pub open spec fn concluded(self) -> World {
        let checked = self.after_game_over();
        if self.state == GameState::Play && checked.state == GameState::Stop {
            World { entities: reset(checked.entities, checked.config), ..checked }
        } else {
            checked
        }
    }

    /// The game one frame later. A stopped game only watches the launch key;
    /// `serve` is the velocity the ball is served with if the game starts. A
    /// game in play runs its systems and then checks whether the round is
    /// over.
    pub open spec fn ticked(self, keys: Keys, serve: Velocity) -> World {
        match self.state {
            GameState::Stop => self.after_play_game(keys.space, serve),
            GameState::Play => self.played(keys).concluded(),
        }
    }
}

impl TheGame {
    /// Runs the systems of a game in play, up to the end-of-round check.
    fn play_frame(&mut self, keys: &Keys)
        requires
            old(self).config.wf(),
        ensures
            final(self)@ == old(self)@.played(*keys),
    {
        self.keyboard_event_arrow(keys.up, keys.down);
        self.keyboard_event_ws(keys.w, keys.s);
        self.move_entities();
        self.ball_collision();
    }

    /// Advances the game by one frame; should the game start in this frame,
    /// the ball is served with `serve`. Where the end-of-round check stops a
    /// game in play, the ball is reset in the same frame.
    pub fn tick_with(&mut self, keys: &Keys, serve: Velocity)
        requires
            old(self).config.wf(),
        ensures
            final(self)@ == old(self)@.ticked(*keys, serve),
            old(self)@.sound() && is_start_velocity(serve) ==> final(self)@.sound(),
    {
        proof {
            if self@.sound() && is_start_velocity(serve) {
                crate::invariants::frame_keeps_sound(self@, *keys, serve);
            }
        }
        match self.state {
            GameState::Stop => {
                self.play_game_with(keys.space, serve);
            },
            GameState::Play => {
                self.play_frame(keys);
                self.game_over();
                if self.state == GameState::Stop {
                    self.reset_ball();
                }
            },
        }
    }

    /// Advances the game by one frame; should the game start in this frame,
    /// the ball is served with a velocity drawn anew. Where the end-of-round
    /// check stops a game in play, the ball is reset in the same frame.
    pub fn tick(&mut self, keys: &Keys)
        requires
            old(self).config.wf(),
        ensures
            exists|serve: Velocity| #[trigger]
                is_start_velocity(serve) && final(self)@ == old(self)@.ticked(*keys, serve),
            old(self)@.sound() ==> final(self)@.sound(),
    {
        proof {
            assert forall|serve: Velocity|
                self@.sound() && #[trigger] is_start_velocity(serve) implies self@.ticked(
                *keys,
                serve,
            ).sound() by {
                crate::invariants::frame_keeps_sound(self@, *keys, serve);
            }
        }
        match self.state {
            GameState::Stop => {
                self.play_game(keys.space);
            },
            GameState::Play => {
                self.play_frame(keys);
                self.game_over();
                if self.state == GameState::Stop {
                    self.reset_ball();
                }
                let ghost unused = Velocity { x: crate::game_config::BALL_START_SPEED_X_LOW, y: 0 };
                assert(is_start_velocity(unused));
                assert(self@ == old(self)@.ticked(*keys, unused));
            },
        }
    }
}

} // verus!
