//! Motion: one frame of velocity is added to the position of everything that
//! moves, and paddles are kept within their travel.

use vstd::prelude::*;
use crate::components::Entity;
use crate::components::Position;
use crate::game_config::Config;
use crate::game_plugin::TheGame;
use crate::units::clamp;
use crate::units::clamp_to;

verus! {

impl Entity {
    /// Whether this is a paddle within its travel, or no paddle at all.
    pub open spec fn within_travel(self, config: Config) -> bool {
        self.pedal.is_some() ==> -config.pedal_bound <= self.position.y <= config.pedal_bound
    }

    /// The entity one frame later. Without a velocity it stays where it is.
    /// With one, its position advances by it; a paddle's height is then
    /// limited to its travel. Nothing else is bounded here.
    pub open spec fn moved(self, config: Config) -> Entity {
        match self.velocity {
            Some(velocity) => {
                let free = self.position.advanced(velocity);
                let held = Position {
                    x: free.x,
                    y: clamp(free.y as int, -config.pedal_bound, config.pedal_bound as int) as i32,
                };
                Entity { position: if self.pedal.is_some() { held } else { free }, ..self }
            },
            None => self,
        }
    }

    /// Moves the entity by one frame.
    pub fn advance(&self, config: &Config) -> (next: Entity)
        requires
            0 <= config.pedal_bound,
        ensures
            next == self.moved(*config),
            self.velocity.is_some() && self.pedal.is_some() ==> next.position.y == clamp(
                self.position.y + self.velocity.unwrap().y,
                -config.pedal_bound,
                config.pedal_bound as int,
            ),
            self.velocity.is_some() ==> next.within_travel(*config),
    {
        match self.velocity {
            Some(velocity) => {
                let free = self.position.advance(velocity);
                let position = if self.pedal.is_some() {
                    Position {
                        x: free.x,
                        y: clamp_to(free.y as i64, -config.pedal_bound, config.pedal_bound),
                    }
                } else {
                    free
                };
                Entity { position, ..*self }
            },
            None => *self,
        }
    }
}

/// Whether every paddle that can move is within its travel.
pub open spec fn paddles_within_travel(entities: Seq<Entity>, config: Config) -> bool {
    forall|i: int|
        0 <= i < entities.len() && (#[trigger] entities[i]).velocity.is_some()
            ==> entities[i].within_travel(config)
}

/// The entities after the motion system has run: each has moved by one frame.
pub open spec fn moved_all(entities: Seq<Entity>, config: Config) -> Seq<Entity> {
    Seq::new(entities.len(), |i: int| entities[i].moved(config))
}

/// Whatever its height and its velocity, a paddle that moves is within its
/// travel one frame later: at the height it was heading for, or at the end
/// of the travel that lay in between.
pub proof fn paddle_stays_within_travel(entity: Entity, config: Config)
    requires
        0 <= config.pedal_bound,
        entity.pedal.is_some(),
        entity.velocity.is_some(),
    ensures
        -config.pedal_bound <= entity.moved(config).position.y <= config.pedal_bound,
        entity.moved(config).position.y == clamp(
            entity.position.y + entity.velocity.unwrap().y,
            -config.pedal_bound,
            config.pedal_bound as int,
        ),
{
}

impl TheGame {
    /// The motion system: moves every entity by one frame.
    pub fn move_entities(&mut self)
        requires
            0 <= old(self).config.pedal_bound,
        ensures
            final(self).config == old(self).config,
            final(self).state == old(self).state,
            final(self).entities@ == moved_all(old(self).entities@, old(self).config),
            paddles_within_travel(final(self).entities@, old(self).config),
    {
        let mut i: usize = 0;
        while i < self.entities.len()
            invariant
                i <= self.entities.len(),
                self.config == old(self).config,
                self.state == old(self).state,
                0 <= self.config.pedal_bound,
                self.entities@.len() == old(self).entities@.len(),
                forall|j: int|
                    0 <= j < i ==> #[trigger] self.entities@[j] == old(self).entities@[j].moved(
                        self.config,
                    ),
                forall|j: int|
                    i <= j < self.entities@.len() ==> #[trigger] self.entities@[j]
                        == old(self).entities@[j],
            decreases self.entities.len() - i,
        {
            let next = self.entities[i].advance(&self.config);
            self.entities[i] = next;
            i += 1;
        }
        assert(self.entities@ =~= moved_all(old(self).entities@, old(self).config));
    }
}

} // verus!
