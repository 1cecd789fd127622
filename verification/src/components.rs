//! The records an entity is made of, and the entity itself.

use vstd::prelude::*;
use crate::units::saturate;
use crate::units::saturating;

verus! {

/// Marks the left paddle.
#[derive(Clone, Copy, Debug, PartialEq, Eq)]
pub struct PedalLeft;

/// Marks the right paddle.
#[derive(Clone, Copy, Debug, PartialEq, Eq)]
pub struct PedalRight;

/// Marks a paddle of either side: its vertical travel is bounded.
#[derive(Clone, Copy, Debug, PartialEq, Eq)]
pub struct Pedal;

/// Marks the ball.
#[derive(Clone, Copy, Debug, PartialEq, Eq)]
pub struct Ball;

/// Role of something the ball bounces off; the role selects the reflection rule.
#[derive(Clone, Copy, Debug, PartialEq, Eq)]
pub enum Collider {
    Top,
    Bottom,
    Left,
    Right,
}

/// Centre of an entity.
#[derive(Clone, Copy, Debug, PartialEq, Eq)]
pub struct Position {
    pub x: i32,
    pub y: i32,
}

/// Full width and height of an entity's bounding box.
#[derive(Clone, Copy, Debug, PartialEq, Eq)]
pub struct Dimensions {
    pub width: i32,
    pub height: i32,
}

/// Displacement per frame.
#[derive(Clone, Copy, Debug, PartialEq, Eq)]
pub struct Velocity {
    pub x: i32,
    pub y: i32,
}

impl Velocity {
    /// The velocity of something at rest.
    pub fn zero() -> (velocity: Velocity)
        ensures
            velocity == (Velocity { x: 0, y: 0 }),
    {
        Velocity { x: 0, y: 0 }
    }
}

impl Position {
    /// This position displaced by one frame of `velocity`; each coordinate
    /// stops at the end of the coordinate range.
    pub open spec fn advanced(self, velocity: Velocity) -> Position {
        Position {
            x: saturate(self.x + velocity.x) as i32,
            y: saturate(self.y + velocity.y) as i32,
        }
    }

    /// Displaces the position by one frame of `velocity`.
    pub fn advance(self, velocity: Velocity) -> (moved: Position)
        ensures
            moved == self.advanced(velocity),
            i32::MIN <= self.x + velocity.x <= i32::MAX ==> moved.x == self.x + velocity.x,
            i32::MIN <= self.y + velocity.y <= i32::MAX ==> moved.y == self.y + velocity.y,
    {
        Position {
            x: saturating(self.x as i64 + velocity.x as i64),
            y: saturating(self.y as i64 + velocity.y as i64),
        }
    }
}

/// One row of the entity store: where it is, how large it is, and which of
/// the optional components it carries.
#[derive(Clone, Copy, Debug, PartialEq, Eq)]
pub struct Entity {
    pub position: Position,
    pub dimensions: Dimensions,
    pub velocity: Option<Velocity>,
    pub collider: Option<Collider>,
    pub ball: Option<Ball>,
    pub pedal: Option<Pedal>,
    pub pedal_left: Option<PedalLeft>,
    pub pedal_right: Option<PedalRight>,
}

} // verus!
