//! Looking up the one entity a system works on.

use vstd::prelude::*;
use crate::components::Entity;

verus! {

/// The kinds of entity that a system expects exactly one of.
#[derive(Clone, Copy, Debug, PartialEq, Eq)]
pub enum Selector {
    /// Anything marked as the ball.
    Ball,
    /// A ball that has a velocity.
    MovingBall,
    /// A ball that has a velocity and is not itself a collider.
    FreeBall,
    /// The left paddle, with a velocity.
    LeftPedal,
    /// The right paddle, with a velocity.
    RightPedal,
}

impl Selector {
    /// Whether `entity` is of this kind.
    pub open spec fn selects(self, entity: Entity) -> bool {
        match self {
            Selector::Ball => entity.ball.is_some(),
            Selector::MovingBall => entity.ball.is_some() && entity.velocity.is_some(),
            Selector::FreeBall => entity.ball.is_some() && entity.velocity.is_some()
                && entity.collider.is_none(),
            Selector::LeftPedal => entity.pedal_left.is_some() && entity.velocity.is_some(),
            Selector::RightPedal => entity.pedal_right.is_some() && entity.velocity.is_some(),
        }
    }

    /// Tells whether `entity` is of this kind.
    pub fn picks(&self, entity: &Entity) -> (picked: bool)
        ensures
            picked == self.selects(*entity),
    {
        match self {
            Selector::Ball => entity.ball.is_some(),
            Selector::MovingBall => entity.ball.is_some() && entity.velocity.is_some(),
            Selector::FreeBall => entity.ball.is_some() && entity.velocity.is_some()
                && entity.collider.is_none(),
            Selector::LeftPedal => entity.pedal_left.is_some() && entity.velocity.is_some(),
            Selector::RightPedal => entity.pedal_right.is_some() && entity.velocity.is_some(),
        }
    }
}

/// Whether the entity at `index` is of the selected kind and the only one.
pub open spec fn is_single(entities: Seq<Entity>, selector: Selector, index: int) -> bool {
    &&& 0 <= index < entities.len()
    &&& selector.selects(entities[index])
    &&& forall|other: int|
        0 <= other < entities.len() && selector.selects(#[trigger] entities[other]) ==> other
            == index
}

/// Finds the entity of the selected kind if there is exactly one. With none,
/// or with more than one, there is no answer.
pub fn single(entities: &Vec<Entity>, selector: Selector) -> (found: Option<usize>)
    ensures
        match found {
            Some(index) => is_single(entities@, selector, index as int),
            None => forall|index: int| !#[trigger] is_single(entities@, selector, index),
        },
{
    let mut first: Option<usize> = None;
    let mut several: bool = false;
    let mut i: usize = 0;
    while i < entities.len()
        invariant
            i <= entities.len(),
            several ==> exists|a: int, b: int|
                0 <= a < b < i && selector.selects(#[trigger] entities@[a]) && selector.selects(
                    #[trigger] entities@[b],
                ),
            match first {
                Some(index) => {
                    &&& index < i
                    &&& selector.selects(entities@[index as int])
                    &&& !several ==> forall|other: int|
                        0 <= other < i && selector.selects(#[trigger] entities@[other]) ==> other
                            == index
                },
                None => !several && forall|other: int|
                    0 <= other < i ==> !selector.selects(#[trigger] entities@[other]),
            },
        decreases entities.len() - i,
    {
        if selector.picks(&entities[i]) {
            match first {
                Some(index) => {
                    assert(selector.selects(entities@[index as int]) && selector.selects(
                        entities@[i as int],
                    ));
                    several = true;
                },
                None => {
                    first = Some(i);
                },
            }
        }
        i += 1;
    }
    if several {
        None
    } else {
        first
    }
}

} // verus!
