//! What holds of a game at every frame, and the proofs that the systems keep
//! it so.

use vstd::prelude::*;
use crate::collision::bounced;
use crate::collision::bounced_along;
use crate::collision::collided;
use crate::collision::is_collider;
use crate::collision::within_limits;
use crate::components::Entity;
use crate::components::Position;
use crate::components::Velocity;
use crate::game_config::is_start_velocity;
use crate::game_config::Config;
use crate::game_plugin::spawned;
use crate::game_plugin::Keys;
use crate::game_plugin::World;
use crate::input::steered;
use crate::input::steered_one;
use crate::motion::paddles_within_travel;
use crate::query::is_single;
use crate::query::Selector;
use crate::states::GameState;
use crate::transitions::ball_is_out;
use crate::transitions::launched;
use crate::transitions::reset;

verus! {

/// Whether two entities differ at most in position and in the value of the
/// velocity they have.
pub open spec fn same_role(a: Entity, b: Entity) -> bool {
    &&& a.dimensions == b.dimensions
    &&& a.velocity.is_some() == b.velocity.is_some()
    &&& a.collider == b.collider
    &&& a.ball == b.ball
    &&& a.pedal == b.pedal
    &&& a.pedal_left == b.pedal_left
    &&& a.pedal_right == b.pedal_right
}

/// Whether two entity lists hold the same entities in the same order, up to
/// position and velocity.
pub open spec fn same_roles(a: Seq<Entity>, b: Seq<Entity>) -> bool {
    &&& a.len() == b.len()
    &&& forall|i: int| 0 <= i < a.len() ==> same_role(#[trigger] a[i], b[i])
}

/// Whether the ball, the left paddle and the right paddle stand at the given
/// places of the list, are three different entities, are the only ones so
/// marked, and can all move.
pub open spec fn cast_at(entities: Seq<Entity>, ball: int, left: int, right: int) -> bool {
    &&& 0 <= ball < entities.len()
    &&& 0 <= left < entities.len()
    &&& 0 <= right < entities.len()
    &&& ball != left && ball != right && left != right
    &&& forall|i: int|
        0 <= i < entities.len() ==> {
            &&& (#[trigger] entities[i]).ball.is_some() <==> i == ball
            &&& entities[i].pedal_left.is_some() <==> i == left
            &&& entities[i].pedal_right.is_some() <==> i == right
            &&& entities[i].pedal.is_some() <==> (i == left || i == right)
        }
    &&& entities[ball].velocity.is_some()
    &&& entities[ball].collider.is_none()
    &&& entities[left].velocity.is_some()
    &&& entities[right].velocity.is_some()
}

impl World {
    /// The invariant, spelled out for a known cast.
    pub open spec fn sound_at(self, ball: int, left: int, right: int) -> bool {
        &&& cast_at(self.entities, ball, left, right)
        &&& paddles_within_travel(self.entities, self.config)
        &&& self.entities[left].velocity.unwrap().x == 0
        &&& self.entities[right].velocity.unwrap().x == 0
        &&& within_limits(self.entities[ball].velocity.unwrap(), self.config)
        &&& self.state == GameState::Stop ==> {
            &&& self.entities[ball].position == (Position { x: self.config.ball_x, y: 0 })
            &&& self.entities[ball].velocity == Some(Velocity { x: 0, y: 0 })
        }
    }

    /// What holds of a game at every frame: there is exactly one ball and one
    /// paddle on each side, and no other paddle; each paddle is within its
    /// travel and has no horizontal speed; the ball is within its speed
    /// limits; and while the game is stopped the ball rests at its start
    /// position.
    pub open spec fn sound(self) -> bool {
        &&& self.config.wf()
        &&& self.config.admits_serves()
        &&& exists|ball: int, left: int, right: int| self.sound_at(ball, left, right)
    }
}

/// Under a known cast each selector finds exactly the entity it is meant for.
proof fn selectors_find_cast(entities: Seq<Entity>, ball: int, left: int, right: int)
    requires
        cast_at(entities, ball, left, right),
    ensures
        forall|i: int| #[trigger] is_single(entities, Selector::Ball, i) <==> i == ball,
        forall|i: int| #[trigger] is_single(entities, Selector::MovingBall, i) <==> i == ball,
        forall|i: int| #[trigger] is_single(entities, Selector::FreeBall, i) <==> i == ball,
        forall|i: int| #[trigger] is_single(entities, Selector::LeftPedal, i) <==> i == left,
        forall|i: int| #[trigger] is_single(entities, Selector::RightPedal, i) <==> i == right,
{
}

/// What a selector finds does not depend on positions or on the values of
/// velocities.
proof fn single_follows_roles(a: Seq<Entity>, b: Seq<Entity>, selector: Selector, index: int)
    requires
        same_roles(a, b),
        is_single(a, selector, index),
    ensures
        is_single(b, selector, index),
{
    assert(same_role(a[index], b[index]));
    assert forall|other: int|
        0 <= other < b.len() && selector.selects(#[trigger] b[other]) implies other == index by {
        assert(same_role(a[other], b[other]));
        assert(selector.selects(a[other]));
    }
}

/// A cast stays where it is when roles stay.
proof fn cast_follows_roles(a: Seq<Entity>, b: Seq<Entity>, ball: int, left: int, right: int)
    requires
        cast_at(a, ball, left, right),
        same_roles(a, b),
    ensures
        cast_at(b, ball, left, right),
{
    assert forall|i: int| 0 <= i < b.len() implies {
        &&& (#[trigger] b[i]).ball.is_some() <==> i == ball
        &&& b[i].pedal_left.is_some() <==> i == left
        &&& b[i].pedal_right.is_some() <==> i == right
        &&& b[i].pedal.is_some() <==> (i == left || i == right)
    } by {
        assert(same_role(a[i], b[i]));
    }
    assert(same_role(a[ball], b[ball]));
    assert(same_role(a[left], b[left]));
    assert(same_role(a[right], b[right]));
}

/// Limiting after every check keeps a velocity within limits that was so
/// before the first.
proof fn bounces_keep_limits(
    entities: Seq<Entity>,
    ball: Entity,
    velocity: Velocity,
    config: Config,
    count: nat,
)
    requires
        0 <= config.max_ball_speed_x,
        0 <= config.max_ball_speed_y,
        within_limits(velocity, config),
    ensures
        within_limits(bounced_along(entities, ball, velocity, config, count), config),
    decreases count,
{
    if count > 0 {
        bounces_keep_limits(entities, ball, velocity, config, (count - 1) as nat);
    }
}

/// Whatever the ball's velocity was, it is within the speed limits once one
/// collider has been checked, hit or not.
pub proof fn bounce_limits_speed(ball: Entity, velocity: Velocity, collider: Entity, config: Config)
    requires
        0 <= config.max_ball_speed_x,
        0 <= config.max_ball_speed_y,
    ensures
        within_limits(bounced(ball, velocity, collider, config), config),
{
}

/// Whatever the ball's velocity was, it is within the speed limits after the
/// collision system has run, provided there was a collider to check.
pub proof fn collision_limits_speed(entities: Seq<Entity>, config: Config, ball: int, collider: int)
    requires
        0 <= config.max_ball_speed_x,
        0 <= config.max_ball_speed_y,
        is_single(entities, Selector::FreeBall, ball),
        0 <= collider < entities.len(),
        is_collider(entities[collider]),
    ensures
        within_limits(collided(entities, config)[ball].velocity.unwrap(), config),
{
    let start = entities[ball].velocity.unwrap();
    limits_hold_from(entities, entities[ball], start, config, collider, entities.len());
}

/// Once a collider has been checked the velocity is within limits, and stays
/// so for the rest of the list.
proof fn limits_hold_from(
    entities: Seq<Entity>,
    ball: Entity,
    velocity: Velocity,
    config: Config,
    collider: int,
    count: nat,
)
    requires
        0 <= config.max_ball_speed_x,
        0 <= config.max_ball_speed_y,
        0 <= collider < count <= entities.len(),
        is_collider(entities[collider]),
    ensures
        within_limits(bounced_along(entities, ball, velocity, config, count), config),
    decreases count,
{
    if count - 1 > collider {
        limits_hold_from(entities, ball, velocity, config, collider, (count - 1) as nat);
    }
}

/// The systems of a game in play change positions and velocities only: at
/// every stage of the frame the entities are the ones the frame began with.
proof fn play_keeps_roles(world: World, keys: Keys)
    ensures
        same_roles(
            world.entities,
            steered(world.entities, Selector::RightPedal, keys.up, keys.down, world.config),
        ),
        same_roles(world.entities, world.steered_by(keys)),
        same_roles(world.entities, world.moved_by(keys)),
        same_roles(world.entities, world.played(keys).entities),
{
    let config = world.config;
    let right = steered(world.entities, Selector::RightPedal, keys.up, keys.down, config);
    let both = world.steered_by(keys);
    let moved = world.moved_by(keys);
    let hit = world.played(keys).entities;
    assert(same_roles(world.entities, right));
    assert(same_roles(right, both));
    assert(same_roles(both, moved));
    assert(same_roles(moved, hit));
}

/// What the systems of a game in play do to a known cast: each paddle is
/// steered by its keys and moved, everything else is moved, and the ball
/// then meets the colliders where they now are. The cast stays in place.
proof fn play_follows_cast(world: World, keys: Keys, ball: int, left: int, right: int)
    requires
        cast_at(world.entities, ball, left, right),
    ensures
        cast_at(world.moved_by(keys), ball, left, right),
        cast_at(world.played(keys).entities, ball, left, right),
        world.moved_by(keys)[right] == steered_one(
            world.entities[right],
            keys.up,
            keys.down,
            world.config,
        ).moved(world.config),
        world.moved_by(keys)[left] == steered_one(
            world.entities[left],
            keys.w,
            keys.s,
            world.config,
        ).moved(world.config),
        forall|i: int|
            0 <= i < world.entities.len() && i != left && i != right
                ==> #[trigger] world.moved_by(keys)[i] == world.entities[i].moved(world.config),
        forall|i: int|
            0 <= i < world.entities.len() && i != ball
                ==> #[trigger] world.played(keys).entities[i] == world.moved_by(keys)[i],
        world.played(keys).entities[ball].position == world.moved_by(keys)[ball].position,
        world.played(keys).entities[ball].velocity == Some(
            bounced_along(
                world.moved_by(keys),
                world.moved_by(keys)[ball],
                world.moved_by(keys)[ball].velocity.unwrap(),
                world.config,
                world.entities.len(),
            ),
        ),
{
    let config = world.config;
    let steered_right = steered(world.entities, Selector::RightPedal, keys.up, keys.down, config);
    play_keeps_roles(world, keys);
    cast_follows_roles(world.entities, steered_right, ball, left, right);
    cast_follows_roles(world.entities, world.moved_by(keys), ball, left, right);
    cast_follows_roles(world.entities, world.played(keys).entities, ball, left, right);
    selectors_find_cast(world.entities, ball, left, right);
    selectors_find_cast(steered_right, ball, left, right);
    selectors_find_cast(world.moved_by(keys), ball, left, right);
}

/// No system adds, removes or reorders entities, or changes what an entity
/// is: a frame changes positions and velocities only, and leaves the
/// configuration alone.
pub proof fn frame_keeps_roles(world: World, keys: Keys, serve: Velocity)
    ensures
        world.ticked(keys, serve).config == world.config,
        same_roles(world.entities, world.ticked(keys, serve).entities),
{
    let hit = world.played(keys).entities;
    play_keeps_roles(world, keys);
    assert(same_roles(hit, reset(hit, world.config)));
    assert(same_roles(world.entities, launched(world.entities, serve)));
}

/// A system whose entity is missing, or there more than once, does nothing
/// in that frame.
pub proof fn missing_singleton_is_skipped(
    entities: Seq<Entity>,
    config: Config,
    accelerate: bool,
    decelerate: bool,
    serve: Velocity,
)
    ensures
        (forall|i: int| !is_single(entities, Selector::RightPedal, i)) ==> steered(
            entities,
            Selector::RightPedal,
            accelerate,
            decelerate,
            config,
        ) == entities,
        (forall|i: int| !is_single(entities, Selector::LeftPedal, i)) ==> steered(
            entities,
            Selector::LeftPedal,
            accelerate,
            decelerate,
            config,
        ) == entities,
        (forall|i: int| !is_single(entities, Selector::FreeBall, i)) ==> collided(entities, config)
            == entities,
        (forall|i: int| !is_single(entities, Selector::MovingBall, i)) ==> reset(entities, config)
            == entities && launched(entities, serve) == entities,
        (forall|i: int| !is_single(entities, Selector::Ball, i)) ==> !ball_is_out(entities, config),
{
    if forall|i: int| !is_single(entities, Selector::RightPedal, i) {
        assert(steered(entities, Selector::RightPedal, accelerate, decelerate, config)
            =~= entities);
    }
    if forall|i: int| !is_single(entities, Selector::LeftPedal, i) {
        assert(steered(entities, Selector::LeftPedal, accelerate, decelerate, config)
            =~= entities);
    }
    if forall|i: int| !is_single(entities, Selector::FreeBall, i) {
        assert(collided(entities, config) =~= entities);
    }
    if forall|i: int| !is_single(entities, Selector::MovingBall, i) {
        assert(reset(entities, config) =~= entities);
        assert(launched(entities, serve) =~= entities);
    }
}

/// Whenever a frame takes the game from play to a stop, the one moving ball
/// rests at its start position afterwards, wherever it had got to.
pub proof fn stopping_rests_ball_at_start(world: World, keys: Keys, serve: Velocity, ball: int)
    requires
        world.state == GameState::Play,
        world.ticked(keys, serve).state == GameState::Stop,
        is_single(world.entities, Selector::MovingBall, ball),
    ensures
        world.ticked(keys, serve).entities[ball].position == (Position {
            x: world.config.ball_x,
            y: 0,
        }),
        world.ticked(keys, serve).entities[ball].velocity == Some(Velocity { x: 0, y: 0 }),
{
    play_keeps_roles(world, keys);
    single_follows_roles(
        world.entities,
        world.played(keys).entities,
        Selector::MovingBall,
        ball,
    );
}

/// In a sound game a frame leaves both paddles in their columns: only their
/// height changes.
pub proof fn frame_keeps_paddle_columns(
    world: World,
    keys: Keys,
    serve: Velocity,
    ball: int,
    left: int,
    right: int,
)
    requires
        world.sound_at(ball, left, right),
    ensures
        world.ticked(keys, serve).entities[left].position.x == world.entities[left].position.x,
        world.ticked(keys, serve).entities[right].position.x == world.entities[right].position.x,
{
    selectors_find_cast(world.entities, ball, left, right);
    if world.state == GameState::Play {
        play_follows_cast(world, keys, ball, left, right);
        selectors_find_cast(world.played(keys).entities, ball, left, right);
    }
}

/// A freshly spawned, stopped game is sound.
pub proof fn spawned_game_is_sound(config: Config)
    requires
        config.wf(),
        config.admits_serves(),
    ensures
        (World { config, state: GameState::Stop, entities: spawned(config) }).sound(),
{
    let world = World { config, state: GameState::Stop, entities: spawned(config) };
    assert(world.sound_at(2, 0, 1));
}

/// A frame keeps a sound game sound, whatever keys are held, as long as the
/// serve is one that can be drawn.
pub proof fn frame_keeps_sound(world: World, keys: Keys, serve: Velocity)
    requires
        world.sound(),
        is_start_velocity(serve),
    ensures
        world.ticked(keys, serve).sound(),
{
    let config = world.config;
    let (ball, left, right) = choose|ball: int, left: int, right: int|
        world.sound_at(ball, left, right);
    let next = world.ticked(keys, serve);
    frame_keeps_roles(world, keys, serve);
    cast_follows_roles(world.entities, next.entities, ball, left, right);
    selectors_find_cast(world.entities, ball, left, right);
    if world.state == GameState::Play {
        let moved = world.moved_by(keys);
        let hit = world.played(keys).entities;
        play_follows_cast(world, keys, ball, left, right);
        selectors_find_cast(hit, ball, left, right);
        bounces_keep_limits(moved, moved[ball], moved[ball].velocity.unwrap(), config, moved.len());
        assert(paddles_within_travel(hit, config));
    }
    assert(next.sound_at(ball, left, right));
}

} // verus!
