use ping_pong::components::Velocity;
use ping_pong::game_config::Config;
use ping_pong::game_config::{
    BALL_START_SPEED_X_HIGH, BALL_START_SPEED_X_LOW, BALL_START_SPEED_Y_HIGH,
    BALL_START_SPEED_Y_LOW,
};
use ping_pong::units::{clamp_to, saturating, UNIT};

#[test]
fn unit_is_a_thousandth_of_a_pixel() {
    assert_eq!(UNIT, 1000);
}

#[test]
fn zero_velocity_is_at_rest() {
    assert_eq!(Velocity::zero(), Velocity { x: 0, y: 0 });
}

#[test]
fn full_hd_window_gives_the_expected_geometry() {
    let config = Config::new(1920 * UNIT, 1080 * UNIT);
    let expected = Config {
        window_width: 1_920_000,
        border_length: 1_880_000,
        border_thickness: 5_000,
        top_border_y: 520_000,
        bottom_border_y: -520_000,
        pedal_width: 20_000,
        pedal_length: 150_000,
        pedal_bound: 445_000,
        left_pedal_x: -930_000,
        right_pedal_x: 930_000,
        max_pedal_velocity: 10_000,
        pedal_velocity_increments: 4_000,
        ball_radius: 20_000,
        ball_x: 0,
        bounce_speed_bonus: 750,
        max_ball_speed_x: 15_000,
        max_ball_speed_y: 10_000,
    };
    assert_eq!(config, expected);
    assert!(config.is_valid());
}

#[test]
fn odd_sizes_are_halved_downwards() {
    let config = Config::new(800_001, 600_001);
    assert_eq!(config.window_width, 800_001);
    assert_eq!(config.border_length, 760_001);
    assert_eq!(config.top_border_y, 280_000);
    assert_eq!(config.bottom_border_y, -280_000);
    assert_eq!(config.pedal_bound, 205_000);
    assert_eq!(config.left_pedal_x, -370_000);
    assert_eq!(config.right_pedal_x, 370_000);
}

#[test]
fn window_must_hold_a_paddle_and_its_gutters() {
    let lowest = Config::new(400 * UNIT, 190 * UNIT);
    assert_eq!(lowest.pedal_bound, 0);
    assert!(lowest.is_valid());
    let too_low = Config::new(400 * UNIT, 190 * UNIT - 2);
    assert_eq!(too_low.pedal_bound, -1);
    assert!(!too_low.is_valid());
}

#[test]
fn empty_window_still_has_a_configuration() {
    let config = Config::new(0, 0);
    assert_eq!(config.border_length, -40_000);
    assert_eq!(config.top_border_y, -20_000);
    assert_eq!(config.bottom_border_y, 20_000);
    assert_eq!(config.pedal_bound, -95_000);
    assert_eq!(config.left_pedal_x, 30_000);
    assert_eq!(config.right_pedal_x, -30_000);
    assert!(!config.is_valid());
}

#[test]
fn validity_looks_at_every_limit() {
    let good = Config::new(1920 * UNIT, 1080 * UNIT);
    assert!(!Config { max_pedal_velocity: -1, ..good }.is_valid());
    assert!(!Config { pedal_velocity_increments: -1, ..good }.is_valid());
    assert!(!Config { max_ball_speed_x: -1, ..good }.is_valid());
    assert!(!Config { max_ball_speed_y: -1, ..good }.is_valid());
    assert!(!Config { ball_radius: -1, ..good }.is_valid());
    assert!(!Config { ball_radius: i32::MAX / 2 + 1, ..good }.is_valid());
    assert!(Config { ball_radius: i32::MAX / 2, ..good }.is_valid());
    assert!(Config { max_ball_speed_x: 0, max_ball_speed_y: 0, ..good }.is_valid());
}

#[test]
fn serve_ranges_are_the_fixed_ones() {
    assert_eq!(BALL_START_SPEED_X_LOW, -5_000);
    assert_eq!(BALL_START_SPEED_X_HIGH, -3_000);
    assert_eq!(BALL_START_SPEED_Y_LOW, -7_000);
    assert_eq!(BALL_START_SPEED_Y_HIGH, 7_000);
}

#[test]
fn serve_speeds_stay_in_their_ranges() {
    let config = Config::new(1920 * UNIT, 1080 * UNIT);
    for _ in 0..2000 {
        let x = config.ball_start_speed_x();
        let y = config.ball_start_speed_y();
        assert!(-5_000 <= x && x < -3_000, "x = {}", x);
        assert!(-7_000 <= y && y < 7_000, "y = {}", y);
    }
}

#[test]
fn serve_speeds_vary() {
    let config = Config::new(1920 * UNIT, 1080 * UNIT);
    let first_x = config.ball_start_speed_x();
    let first_y = config.ball_start_speed_y();
    let mut other_x = false;
    let mut other_y = false;
    let mut upward = false;
    let mut downward = false;
    for _ in 0..2000 {
        let x = config.ball_start_speed_x();
        let y = config.ball_start_speed_y();
        other_x = other_x || x != first_x;
        other_y = other_y || y != first_y;
        upward = upward || y > 0;
        downward = downward || y < 0;
    }
    assert!(other_x);
    assert!(other_y);
    assert!(upward);
    assert!(downward);
}

#[test]
fn clamping_limits_to_the_interval() {
    assert_eq!(clamp_to(5, -10, 10), 5);
    assert_eq!(clamp_to(-11, -10, 10), -10);
    assert_eq!(clamp_to(11, -10, 10), 10);
    assert_eq!(clamp_to(10, -10, 10), 10);
    assert_eq!(clamp_to(-10, -10, 10), -10);
    assert_eq!(clamp_to(i64::MAX, 3, 3), 3);
}

#[test]
fn saturating_stops_at_the_ends_of_the_range() {
    assert_eq!(saturating(0), 0);
    assert_eq!(saturating(i32::MAX as i64), i32::MAX);
    assert_eq!(saturating(i32::MAX as i64 + 1), i32::MAX);
    assert_eq!(saturating(i32::MIN as i64 - 1), i32::MIN);
    assert_eq!(saturating(-123_456), -123_456);
}
