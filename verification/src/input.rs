//! Input: the keys held in a frame set the vertical speed of the paddles.

use vstd::prelude::*;
use crate::components::Entity;
use crate::components::Velocity;
use crate::game_config::Config;
use crate::game_plugin::TheGame;
use crate::query::is_single;
use crate::query::single;
use crate::query::Selector;

verus! {

/// The speed of a paddle in the next frame. While the accelerating key is
/// held the speed grows by one increment, up to the limit; otherwise, while
/// the decelerating key is held, it falls by one increment, down to the
/// negated limit; with neither key the paddle stops at once.
pub open spec fn next_pedal_speed(speed: int, accelerate: bool, decelerate: bool, config: Config) -> int {
    if accelerate {
        if speed + config.pedal_velocity_increments < config.max_pedal_velocity {
            speed + config.pedal_velocity_increments
        } else {
            config.max_pedal_velocity as int
        }
    } else if decelerate {
        if speed - config.pedal_velocity_increments > -config.max_pedal_velocity {
            speed - config.pedal_velocity_increments
        } else {
            -config.max_pedal_velocity
        }
    } else {
        0
    }
}

/// The speed of a paddle that started at rest and has seen the same keys
/// held for `frames` frames.
pub open spec fn held_speed(accelerate: bool, decelerate: bool, config: Config, frames: nat) -> int
    decreases frames,
{
    if frames == 0 {
        0
    } else {
        next_pedal_speed(
            held_speed(accelerate, decelerate, config, (frames - 1) as nat),
            accelerate,
            decelerate,
            config,
        )
    }
}

/// The entity with its vertical speed set by the keys; one without a
/// velocity is left as it is.
pub open spec fn steered_one(entity: Entity, accelerate: bool, decelerate: bool, config: Config) -> Entity {
    match entity.velocity {
        Some(velocity) => Entity {
            velocity: Some(
                Velocity {
                    x: velocity.x,
                    y: next_pedal_speed(velocity.y as int, accelerate, decelerate, config) as i32,
                },
            ),
            ..entity
        },
        None => entity,
    }
}

/// The entities after one paddle's keys have been read: the selected paddle,
/// if there is exactly one, has its new vertical speed; nothing else changes.
pub open spec fn steered(
    entities: Seq<Entity>,
    selector: Selector,
    accelerate: bool,
    decelerate: bool,
    config: Config,
) -> Seq<Entity> {
    Seq::new(
        entities.len(),
        |i: int|
            if is_single(entities, selector, i) {
                steered_one(entities[i], accelerate, decelerate, config)
            } else {
                entities[i]
            },
    )
}

/// Holding the accelerating key for `frames` frames from rest gives the
/// smaller of `frames` increments and the speed limit.
pub proof fn acceleration_ramp(config: Config, frames: nat)
    requires
        config.wf(),
    ensures
        held_speed(true, false, config, frames) == if frames * config.pedal_velocity_increments
            < config.max_pedal_velocity {
            frames * config.pedal_velocity_increments
        } else {
            config.max_pedal_velocity as int
        },
    decreases frames,
{
    let step = config.pedal_velocity_increments as int;
    if frames == 0 {
        assert(frames * step == 0) by (nonlinear_arith)
            requires
                frames == 0,
        ;
    } else {
        let before = (frames - 1) as nat;
        acceleration_ramp(config, before);
        assert(frames * step == before * step + step && 0 <= before * step) by (nonlinear_arith)
            requires
                before == frames - 1,
                0 <= step,
        ;
    }
}

/// Holding the decelerating key for `frames` frames from rest gives the
/// larger of `frames` negated increments and the negated speed limit.
pub proof fn deceleration_ramp(config: Config, frames: nat)
    requires
        config.wf(),
    ensures
        held_speed(false, true, config, frames) == if -(frames
            * config.pedal_velocity_increments) > -config.max_pedal_velocity {
            -(frames * config.pedal_velocity_increments)
        } else {
            -config.max_pedal_velocity
        },
    decreases frames,
{
    let step = config.pedal_velocity_increments as int;
    if frames == 0 {
        assert(frames * step == 0) by (nonlinear_arith)
            requires
                frames == 0,
        ;
    } else {
        let before = (frames - 1) as nat;
        deceleration_ramp(config, before);
        assert(frames * step == before * step + step && 0 <= before * step) by (nonlinear_arith)
            requires
                before == frames - 1,
                0 <= step,
        ;
    }
}

/// With no key held a paddle is at rest in the next frame, whatever its speed
/// was and however long a key had been held before.
pub proof fn release_stops(speed: int, config: Config)
    ensures
        next_pedal_speed(speed, false, false, config) == 0,
{
}

impl TheGame {
    /// The speed of a paddle in the next frame, from its present speed and
    /// the two keys that steer it.
    pub fn compute_velocity(
        velocity: i32,
        accelerate: bool,
        decelerate: bool,
        config: &Config,
    ) -> (next: i32)
        requires
            0 <= config.pedal_velocity_increments,
            i32::MIN < config.max_pedal_velocity,
        ensures
            next == next_pedal_speed(velocity as int, accelerate, decelerate, *config),
    {
        let step: i64 = config.pedal_velocity_increments as i64;
        let limit: i64 = config.max_pedal_velocity as i64;
        if accelerate {
            let faster: i64 = velocity as i64 + step;
            if faster < limit {
                faster as i32
            } else {
                config.max_pedal_velocity
            }
        } else if decelerate {
            let slower: i64 = velocity as i64 - step;
            if slower > -limit {
                slower as i32
            } else {
                -config.max_pedal_velocity
            }
        } else {
            0
        }
    }

    /// Sets the vertical speed of the selected paddle from its two keys.
    fn steer(&mut self, selector: Selector, accelerate: bool, decelerate: bool)
        requires
            0 <= old(self).config.pedal_velocity_increments,
            i32::MIN < old(self).config.max_pedal_velocity,
            selector == Selector::LeftPedal || selector == Selector::RightPedal,
        ensures
            final(self).config == old(self).config,
            final(self).state == old(self).state,
            final(self).entities@ == steered(
                old(self).entities@,
                selector,
                accelerate,
                decelerate,
                old(self).config,
            ),
    {
        match single(&self.entities, selector) {
            Some(at) => {
                let pedal: Entity = self.entities[at];
                match pedal.velocity {
                    Some(velocity) => {
                        let y = TheGame::compute_velocity(
                            velocity.y,
                            accelerate,
                            decelerate,
                            &self.config,
                        );
                        self.entities[at] = Entity {
                            velocity: Some(Velocity { x: velocity.x, y }),
                            ..pedal
                        };
                    },
                    None => {},
                }
            },
            None => {},
        }
        assert(self.entities@ =~= steered(
            old(self).entities@,
            selector,
            accelerate,
            decelerate,
            old(self).config,
        ));
    }

    /// The input system of the right paddle: `up` accelerates it, `down`
    /// decelerates it. Without exactly one right paddle nothing happens.
    pub fn keyboard_event_arrow(&mut self, up: bool, down: bool)
        requires
            0 <= old(self).config.pedal_velocity_increments,
            i32::MIN < old(self).config.max_pedal_velocity,
        ensures
            final(self).config == old(self).config,
            final(self).state == old(self).state,
            final(self).entities@ == steered(
                old(self).entities@,
                Selector::RightPedal,
                up,
                down,
                old(self).config,
            ),
    {
        self.steer(Selector::RightPedal, up, down);
    }

    /// The input system of the left paddle: `w` accelerates it, `s`
    /// decelerates it. Without exactly one left paddle nothing happens.
    pub fn keyboard_event_ws(&mut self, w: bool, s: bool)
        requires
            0 <= old(self).config.pedal_velocity_increments,
            i32::MIN < old(self).config.max_pedal_velocity,
        ensures
            final(self).config == old(self).config,
            final(self).state == old(self).state,
            final(self).entities@ == steered(
                old(self).entities@,
                Selector::LeftPedal,
                w,
                s,
                old(self).config,
            ),
    {
        self.steer(Selector::LeftPedal, w, s);
    }
}

} // verus!
