//! Geometry and speed constants of a game, derived once from the window size.

use vstd::prelude::*;
use rand::Rng;
use crate::components::Velocity;
use crate::units::UNIT;

verus! {

/// Width of a paddle.
pub const PEDAL_WIDTH: i32 = 20 * UNIT;

/// Length (vertical extent) of a paddle.
pub const PEDAL_LENGTH: i32 = 150 * UNIT;

/// Gap kept between a paddle and the edges of the window.
pub const PEDAL_GUTTER: i32 = 20 * UNIT;

/// Fastest a paddle moves, in either direction.
pub const MAX_PEDAL_VELOCITY: i32 = 10 * UNIT;

/// Speed a paddle gains per frame while its key is held.
pub const PEDAL_VELOCITY_INCREMENT: i32 = 4 * UNIT;

/// By how much a border is shorter than the window is wide.
pub const BORDER_SHORTENING: i32 = 40 * UNIT;

/// Distance of a border's centre line from the window's edge.
pub const BORDER_INSET: i32 = 20 * UNIT;

/// Thickness of a border.
pub const BORDER_THICKNESS: i32 = 5 * UNIT;

/// Radius of the ball.
pub const BALL_RADIUS: i32 = 20 * UNIT;

/// Horizontal speed a paddle adds to the ball it returns: three quarters of
/// a pixel per frame.
pub const BOUNCE_SPEED_BONUS: i32 = 750;

/// Horizontal speed limit of the ball.
pub const MAX_BALL_SPEED_X: i32 = 15 * UNIT;

/// Vertical speed limit of the ball.
pub const MAX_BALL_SPEED_Y: i32 = 10 * UNIT;

/// Lowest horizontal speed of a serve.
pub const BALL_START_SPEED_X_LOW: i32 = -5 * UNIT;

/// Upper end of the horizontal serve speeds; the end itself is never drawn.
pub const BALL_START_SPEED_X_HIGH: i32 = -3 * UNIT;

/// Lowest vertical speed of a serve.
pub const BALL_START_SPEED_Y_LOW: i32 = -7 * UNIT;

/// Upper end of the vertical serve speeds; the end itself is never drawn.
pub const BALL_START_SPEED_Y_HIGH: i32 = 7 * UNIT;

/// Whether `velocity` is one a serve may have: leftwards within the fixed
/// horizontal range, and within the symmetric vertical range.
pub open spec fn is_start_velocity(velocity: Velocity) -> bool {
    &&& BALL_START_SPEED_X_LOW <= velocity.x < BALL_START_SPEED_X_HIGH
    &&& BALL_START_SPEED_Y_LOW <= velocity.y < BALL_START_SPEED_Y_HIGH
}

/// Snapshot of the derived geometry and speed constants. It is computed once,
/// before any entity exists, and never changes afterwards.
#[derive(Clone, Copy, Debug, PartialEq, Eq)]
pub struct Config {
    pub window_width: i32,
    pub border_length: i32,
    pub border_thickness: i32,
    pub top_border_y: i32,
    pub bottom_border_y: i32,
    pub pedal_width: i32,
    pub pedal_length: i32,
    pub pedal_bound: i32,
    pub left_pedal_x: i32,
    pub right_pedal_x: i32,
    pub max_pedal_velocity: i32,
    pub pedal_velocity_increments: i32,
    pub ball_radius: i32,
    pub ball_x: i32,
    pub bounce_speed_bonus: i32,
    pub max_ball_speed_x: i32,
    pub max_ball_speed_y: i32,
}

/// Uniform draw from the half-open range `low..high`, made by
/// `rand::Rng::gen_range` on the generator that `rand::thread_rng` hands out.
/// Trusted: the draw is at least `low` and below `high`. An empty range makes
/// `gen_range` panic, so it is excluded. Nothing is claimed of which value
/// comes out.
#[verifier::external_body]
fn uniform_in(low: i32, high: i32) -> (drawn: i32)
    requires
        low < high,
    ensures
        low <= drawn < high,
{
    rand::thread_rng().gen_range(low..high)
}

impl Config {
    /// The configuration of a window of the given size.
    pub open spec fn derived(window_width: int, window_height: int) -> Config {
        Config {
            window_width: window_width as i32,
            border_length: (window_width - BORDER_SHORTENING) as i32,
            border_thickness: BORDER_THICKNESS,
            top_border_y: (window_height / 2 - BORDER_INSET) as i32,
            bottom_border_y: (-(window_height / 2 - BORDER_INSET)) as i32,
            pedal_width: PEDAL_WIDTH,
            pedal_length: PEDAL_LENGTH,
            pedal_bound: (window_height / 2 - PEDAL_GUTTER - PEDAL_LENGTH / 2) as i32,
            left_pedal_x: (-(window_width / 2 - PEDAL_GUTTER - PEDAL_WIDTH / 2)) as i32,
            right_pedal_x: (window_width / 2 - PEDAL_GUTTER - PEDAL_WIDTH / 2) as i32,
            max_pedal_velocity: MAX_PEDAL_VELOCITY,
            pedal_velocity_increments: PEDAL_VELOCITY_INCREMENT,
            ball_radius: BALL_RADIUS,
            ball_x: 0,
            bounce_speed_bonus: BOUNCE_SPEED_BONUS,
            max_ball_speed_x: MAX_BALL_SPEED_X,
            max_ball_speed_y: MAX_BALL_SPEED_Y,
        }
    }

    /// What the systems need of a configuration: the paddle's travel and the
    /// speed limits are intervals that are not empty, the paddle's speed step
    /// does not point backwards, and the ball's diameter is representable.
    pub open spec fn wf(self) -> bool {
        &&& 0 <= self.pedal_bound
        &&& 0 <= self.max_pedal_velocity
        &&& 0 <= self.pedal_velocity_increments
        &&& 0 <= self.max_ball_speed_x
        &&& 0 <= self.max_ball_speed_y
        &&& 0 <= self.ball_radius <= i32::MAX / 2
    }

    /// Whether every serve is within the ball's speed limits.
    pub open spec fn admits_serves(self) -> bool {
        &&& self.max_ball_speed_x >= -BALL_START_SPEED_X_LOW
        &&& self.max_ball_speed_y >= -BALL_START_SPEED_Y_LOW
        &&& self.max_ball_speed_y >= BALL_START_SPEED_Y_HIGH
    }

    /// Derives the configuration from the window's width and height.
    pub fn new(window_width: i32, window_height: i32) -> (config: Config)
        requires
            0 <= window_width,
            0 <= window_height,
        ensures
            config == Config::derived(window_width as int, window_height as int),
            config.admits_serves(),
            config.wf() <==> window_height / 2 >= PEDAL_GUTTER + PEDAL_LENGTH / 2,
    {
        let half_width: i32 = window_width / 2;
        let half_height: i32 = window_height / 2;
        let pedal_x: i32 = half_width - PEDAL_GUTTER - PEDAL_WIDTH / 2;
        let border_y: i32 = half_height - BORDER_INSET;
        Config {
            window_width,
            border_length: window_width - BORDER_SHORTENING,
            border_thickness: BORDER_THICKNESS,
            top_border_y: border_y,
            bottom_border_y: -border_y,
            pedal_width: PEDAL_WIDTH,
            pedal_length: PEDAL_LENGTH,
            pedal_bound: half_height - PEDAL_GUTTER - PEDAL_LENGTH / 2,
            left_pedal_x: -pedal_x,
            right_pedal_x: pedal_x,
            max_pedal_velocity: MAX_PEDAL_VELOCITY,
            pedal_velocity_increments: PEDAL_VELOCITY_INCREMENT,
            ball_radius: BALL_RADIUS,
            ball_x: 0,
            bounce_speed_bonus: BOUNCE_SPEED_BONUS,
            max_ball_speed_x: MAX_BALL_SPEED_X,
            max_ball_speed_y: MAX_BALL_SPEED_Y,
        }
    }

    /// Tells whether the systems can run on this configuration.
    pub fn is_valid(&self) -> (valid: bool)
        ensures
            valid == self.wf(),
    {
        0 <= self.pedal_bound && 0 <= self.max_pedal_velocity
            && 0 <= self.pedal_velocity_increments && 0 <= self.max_ball_speed_x
            && 0 <= self.max_ball_speed_y && 0 <= self.ball_radius
            && self.ball_radius <= i32::MAX / 2
    }

    /// Draws the horizontal speed of a serve, uniformly from the fixed
    /// leftward range.
    pub fn ball_start_speed_x(&self) -> (speed: i32)
        ensures
            BALL_START_SPEED_X_LOW <= speed < BALL_START_SPEED_X_HIGH,
    {
        uniform_in(BALL_START_SPEED_X_LOW, BALL_START_SPEED_X_HIGH)
    }

    /// Draws the vertical speed of a serve, uniformly from the fixed
    /// symmetric range.
    pub fn ball_start_speed_y(&self) -> (speed: i32)
        ensures
            BALL_START_SPEED_Y_LOW <= speed < BALL_START_SPEED_Y_HIGH,
    {
        uniform_in(BALL_START_SPEED_Y_LOW, BALL_START_SPEED_Y_HIGH)
    }
}

} // verus!
