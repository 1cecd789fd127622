//! Ball against colliders: the overlap test, the reflection rules and the
//! speed limit that follows every check.

use vstd::prelude::*;
use crate::components::Collider;
use crate::components::Dimensions;
use crate::components::Entity;
use crate::components::Position;
use crate::components::Velocity;
use crate::game_config::Config;
use crate::game_plugin::TheGame;
use crate::query::is_single;
use crate::query::single;
use crate::query::Selector;
use crate::units::clamp;
use crate::units::clamp_to;

verus! {

/// Whether two axis-aligned boxes share area. A box reaches half its size to
/// each side of its centre; boxes that only touch do not overlap. Coordinates
/// are compared doubled, so that no half is rounded.
pub open spec fn overlaps(
    a_position: Position,
    a_size: Dimensions,
    b_position: Position,
    b_size: Dimensions,
) -> bool {
    &&& 2 * a_position.x - a_size.width < 2 * b_position.x + b_size.width
    &&& 2 * a_position.x + a_size.width > 2 * b_position.x - b_size.width
    &&& 2 * a_position.y - a_size.height < 2 * b_position.y + b_size.height
    &&& 2 * a_position.y + a_size.height > 2 * b_position.y - b_size.height
}

/// Tests two axis-aligned boxes for overlap.
pub fn collide(
    a_position: Position,
    a_size: Dimensions,
    b_position: Position,
    b_size: Dimensions,
) -> (hit: bool)
    ensures
        hit == overlaps(a_position, a_size, b_position, b_size),
{
    let a_x: i64 = 2 * (a_position.x as i64);
    let a_y: i64 = 2 * (a_position.y as i64);
    let b_x: i64 = 2 * (b_position.x as i64);
    let b_y: i64 = 2 * (b_position.y as i64);
    let a_w: i64 = a_size.width as i64;
    let a_h: i64 = a_size.height as i64;
    let b_w: i64 = b_size.width as i64;
    let b_h: i64 = b_size.height as i64;
    a_x - a_w < b_x + b_w && a_x + a_w > b_x - b_w && a_y - a_h < b_y + b_h && a_y + a_h > b_y
        - b_h
}

/// Whether the ball is checked against `entity`: it has a collider role and
/// is not a ball itself.
pub open spec fn is_collider(entity: Entity) -> bool {
    entity.collider.is_some() && entity.ball.is_none()
}

/// The velocity a collider moves with; one without a velocity stands still.
pub open spec fn collider_velocity(entity: Entity) -> Velocity {
    match entity.velocity {
        Some(velocity) => velocity,
        None => Velocity { x: 0, y: 0 },
    }
}

/// Horizontal ball speed after a hit, before limiting. A border leaves it
/// alone; a paddle turns it round and pushes the ball away from its side.
pub open spec fn reflected_x(ball: Velocity, role: Collider, config: Config) -> int {
    match role {
        Collider::Top | Collider::Bottom => ball.x as int,
        Collider::Left => -ball.x + config.bounce_speed_bonus,
        Collider::Right => -ball.x - config.bounce_speed_bonus,
    }
}

/// Vertical ball speed after a hit, before limiting. A border mirrors the
/// speed relative to its own; a paddle hands its own speed on to the ball.
pub open spec fn reflected_y(ball: Velocity, role: Collider, other: Velocity) -> int {
    match role {
        Collider::Top | Collider::Bottom => -(ball.y - other.y),
        Collider::Left | Collider::Right => ball.y + other.y,
    }
}

/// A velocity held within the ball's speed limits, each axis by itself.
pub open spec fn limited(x: int, y: int, config: Config) -> Velocity {
    Velocity {
        x: clamp(x, -config.max_ball_speed_x, config.max_ball_speed_x as int) as i32,
        y: clamp(y, -config.max_ball_speed_y, config.max_ball_speed_y as int) as i32,
    }
}

/// Whether `velocity` is within the ball's speed limits.
pub open spec fn within_limits(velocity: Velocity, config: Config) -> bool {
    &&& -config.max_ball_speed_x <= velocity.x <= config.max_ball_speed_x
    &&& -config.max_ball_speed_y <= velocity.y <= config.max_ball_speed_y
}

/// Ball velocity after the check against one collider: reflected by the
/// collider's rule if the boxes overlap, and limited either way.
pub open spec fn bounced(ball: Entity, velocity: Velocity, collider: Entity, config: Config) -> Velocity {
    if collider.collider.is_some() && overlaps(
        collider.position,
        collider.dimensions,
        ball.position,
        ball.dimensions,
    ) {
        limited(
            reflected_x(velocity, collider.collider.unwrap(), config),
            reflected_y(velocity, collider.collider.unwrap(), collider_velocity(collider)),
            config,
        )
    } else {
        limited(velocity.x as int, velocity.y as int, config)
    }
}

/// Ball velocity after the first `count` entities have been visited in
/// order, starting from `velocity`. Entities that are no colliders are passed
/// over; where two colliders overlap the ball, the later rule is applied to
/// what the earlier one left.
pub open spec fn bounced_along(
    entities: Seq<Entity>,
    ball: Entity,
    velocity: Velocity,
    config: Config,
    count: nat,
) -> Velocity
    decreases count,
{
    if count == 0 {
        velocity
    } else {
        let before = bounced_along(entities, ball, velocity, config, (count - 1) as nat);
        if is_collider(entities[count - 1]) {
            bounced(ball, before, entities[count - 1], config)
        } else {
            before
        }
    }
}

/// The entities after the collision system has run: the one free ball, if
/// there is exactly one, has met every collider; nothing else changes.
pub open spec fn collided(entities: Seq<Entity>, config: Config) -> Seq<Entity> {
    Seq::new(
        entities.len(),
        |i: int|
            if is_single(entities, Selector::FreeBall, i) {
                Entity {
                    velocity: Some(
                        bounced_along(
                            entities,
                            entities[i],
                            entities[i].velocity.unwrap(),
                            config,
                            entities.len(),
                        ),
                    ),
                    ..entities[i]
                }
            } else {
                entities[i]
            },
    )
}

/// Checks the ball against one collider and returns the ball's new velocity.
pub fn bounce(
    ball: &Entity,
    velocity: Velocity,
    collider: &Entity,
    config: &Config,
) -> (after: Velocity)
    requires
        0 <= config.max_ball_speed_x,
        0 <= config.max_ball_speed_y,
    ensures
        after == bounced(*ball, velocity, *collider, *config),
        within_limits(after, *config),
{
    let other_y: i64 = match collider.velocity {
        Some(other) => other.y as i64,
        None => 0,
    };
    let mut x: i64 = velocity.x as i64;
    let mut y: i64 = velocity.y as i64;
    if collide(collider.position, collider.dimensions, ball.position, ball.dimensions) {
        match collider.collider {
            Some(Collider::Top) | Some(Collider::Bottom) => {
                y = -(y - other_y);
            },
            Some(Collider::Left) => {
                y = y + other_y;
                x = -x + config.bounce_speed_bonus as i64;
            },
            Some(Collider::Right) => {
                y = y + other_y;
                x = -x - config.bounce_speed_bonus as i64;
            },
            None => {},
        }
    }
    Velocity {
        x: clamp_to(x, -config.max_ball_speed_x, config.max_ball_speed_x),
        y: clamp_to(y, -config.max_ball_speed_y, config.max_ball_speed_y),
    }
}

impl TheGame {
    /// The collision system. If there is exactly one free ball, it is checked
    /// against every collider in spawning order, and its velocity is limited
    /// after each check, hit or not. Otherwise nothing happens.
    pub fn ball_collision(&mut self)
        requires
            0 <= old(self).config.max_ball_speed_x,
            0 <= old(self).config.max_ball_speed_y,
        ensures
            final(self).config == old(self).config,
            final(self).state == old(self).state,
            final(self).entities@ == collided(old(self).entities@, old(self).config),
    {
        let found = single(&self.entities, Selector::FreeBall);
        match found {
            Some(at) => {
                let ball: Entity = self.entities[at];
                let mut velocity: Velocity = match ball.velocity {
                    Some(velocity) => velocity,
                    None => Velocity::zero(),
                };
                let mut i: usize = 0;
                while i < self.entities.len()
                    invariant
                        i <= self.entities.len(),
                        *self == *old(self),
                        0 <= self.config.max_ball_speed_x,
                        0 <= self.config.max_ball_speed_y,
                        ball.velocity.is_some(),
                        velocity == bounced_along(
                            self.entities@,
                            ball,
                            ball.velocity.unwrap(),
                            self.config,
                            i as nat,
                        ),
                    decreases self.entities.len() - i,
                {
                    let other: Entity = self.entities[i];
                    if other.collider.is_some() && other.ball.is_none() {
                        velocity = bounce(&ball, velocity, &other, &self.config);
                    }
                    i += 1;
                }
                self.entities[at] = Entity { velocity: Some(velocity), ..ball };
                assert(final(self).entities@ =~= collided(old(self).entities@, old(self).config));
            },
            None => {
                assert(self.entities@ =~= collided(self.entities@, self.config));
            },
        }
    }
}

} // verus!
