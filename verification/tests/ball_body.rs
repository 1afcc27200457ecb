use bouncy::ball::{BALL_BOUNCINESS, BALL_WEIGHT_FACTOR, KB_X_BOOST, KB_Y_BOOST};
use bouncy::body::{DEFAULT_COLLISION_DAMPING_FACTOR, DEFAULT_COLLISION_DAMPING_FACTOR_RECTANGLE};
use bouncy::{
    Ball, CollisionShape, CollisionType, GameObject, GameObjectCommon, Key, ObjectInfo, Scalar,
    WindowSize, XYPair,
};

fn m(micro: i64) -> Scalar {
    Scalar::from_micro(micro)
}

fn pair(x_micro: i64, y_micro: i64) -> XYPair {
    XYPair { x: m(x_micro), y: m(y_micro) }
}

fn standing(position: (i64, i64), velocity: (i64, i64), height: Option<usize>) -> Ball {
    let mut ball = Ball::new(pair(position.0, position.1), m(24_000_000), "#cf5353");
    ball.common().velocities = pair(velocity.0, velocity.1);
    ball.common().object_info =
        height.map(|height| ObjectInfo { window_size: WindowSize { height, width: 800 } });
    ball
}

/// The raster of a disc as the floating-point rule gives it.
fn reference_raster(radius: f64, color: u32) -> Vec<Vec<u32>> {
    let side = (radius * 2.0) as usize;
    let mut raster = vec![vec![0u32; side]; side];
    for y in 0..side {
        for x in 0..side {
            let dx = (x as f64 - radius).abs();
            let dy = (y as f64 - radius).abs();
            if (dx * dx + dy * dy).sqrt() <= radius {
                raster[y][x] = color;
            }
        }
    }
    raster
}

#[test]
fn new_ball_is_at_rest_where_it_was_put() {
    let mut ball = Ball::new(pair(376_000_000, 276_000_000), m(24_000_000), "#cf5353");
    assert_eq!(
        *ball.common(),
        GameObjectCommon {
            coords: pair(376_000_000, 276_000_000),
            velocities: pair(0, 0),
            object_info: None,
        }
    );
    assert_eq!(ball.radius(), m(24_000_000));
    assert_eq!(ball.color(), 0xcf5353);
}

#[test]
fn ball_with_a_malformed_color_is_white() {
    assert_eq!(Ball::new(pair(0, 0), m(24_000_000), "#zz0000").color(), 0xFFFFFF);
    assert_eq!(Ball::new(pair(0, 0), m(24_000_000), "").color(), 0xFFFFFF);
    assert_eq!(Ball::new(pair(0, 0), m(24_000_000), "red").color(), 0xFFFFFF);
}

#[test]
fn ball_coefficients() {
    let ball = Ball::new(pair(0, 0), m(24_000_000), "#cf5353");
    assert_eq!(ball.weight_factor(), m(800_000));
    assert_eq!(ball.bounciness(), m(600_000));
    assert_eq!(ball.collision_shape(), CollisionShape::Circle(m(24_000_000)));
    assert_eq!(BALL_WEIGHT_FACTOR, 800_000);
    assert_eq!(BALL_BOUNCINESS, 600_000);
    assert_eq!(KB_X_BOOST, 200_000);
    assert_eq!(KB_Y_BOOST, 16_000_000);
    assert_eq!(DEFAULT_COLLISION_DAMPING_FACTOR, 800_000);
    assert_eq!(DEFAULT_COLLISION_DAMPING_FACTOR_RECTANGLE, 500_000);
    assert_ne!(CollisionType::Circle, CollisionType::Rectangle);
}

#[test]
fn default_state_is_at_rest_at_the_origin() {
    assert_eq!(XYPair::default(), pair(0, 0));
    assert_eq!(
        GameObjectCommon::default(),
        GameObjectCommon { coords: pair(0, 0), velocities: pair(0, 0), object_info: None }
    );
}

#[test]
fn disc_of_radius_24() {
    let ball = Ball::new(pair(0, 0), m(24_000_000), "#cf5353");
    let raster = ball.draw();
    assert_eq!(raster.len(), 48);
    for row in raster.iter() {
        assert_eq!(row.len(), 48);
    }
    // top-center is on the disc, the corner is not
    assert_eq!(raster[0][24], 0xcf5353);
    assert_eq!(raster[0][0], 0);
    assert_eq!(raster[24][24], 0xcf5353);
    assert_eq!(raster[24][0], 0xcf5353);
    assert_eq!(raster[0][23], 0);
    assert_eq!(raster[0][25], 0);
    assert_eq!(raster[47][47], 0);
    assert_eq!(raster[47][24], 0xcf5353);
    assert_eq!(raster[24][47], 0xcf5353);
    assert_eq!(raster, reference_raster(24.0, 0xcf5353));
}

#[test]
fn discs_match_the_distance_rule() {
    for radius in [0i64, 1, 2, 3, 5, 8, 13, 40] {
        let ball = Ball::new(pair(0, 0), m(radius * 1_000_000), "#0000ff");
        assert_eq!(ball.draw(), reference_raster(radius as f64, 0xff));
    }
    for (micro, radius) in [(500_000i64, 0.5f64), (2_500_000, 2.5), (7_250_000, 7.25), (10_750_000, 10.75)] {
        let ball = Ball::new(pair(0, 0), m(micro), "#00ff00");
        assert_eq!(ball.draw(), reference_raster(radius, 0xff00));
    }
}

#[test]
fn disc_of_radius_two_and_a_half() {
    let ball = Ball::new(pair(0, 0), m(2_500_000), "#000001");
    assert_eq!(
        ball.draw(),
        vec![
            vec![0, 0, 0, 0, 0],
            vec![0, 1, 1, 1, 1],
            vec![0, 1, 1, 1, 1],
            vec![0, 1, 1, 1, 1],
            vec![0, 1, 1, 1, 1],
        ]
    );
}

#[test]
fn disc_without_extent_has_no_cells() {
    assert!(Ball::new(pair(0, 0), m(0), "#cf5353").draw().is_empty());
    assert!(Ball::new(pair(0, 0), m(499_999), "#cf5353").draw().is_empty());
    assert!(Ball::new(pair(0, 0), m(-24_000_000), "#cf5353").draw().is_empty());
}

#[test]
fn no_keys_no_change() {
    let mut ball = standing((300_000_000, 552_000_000), (1_000_000, -300_000), Some(600));
    let before = *ball.common();
    ball.handle_input(&[]);
    assert_eq!(*ball.common(), before);
    ball.handle_input(&[Key::S, Key::Space, Key::Left, Key::Right, Key::Up, Key::Escape]);
    assert_eq!(*ball.common(), before);
}

#[test]
fn movement_keys_push_sideways() {
    let mut ball = standing((300_000_000, 100_000_000), (1_000_000, 2_000_000), Some(600));
    ball.handle_input(&[Key::A]);
    assert_eq!(ball.common().velocities, pair(800_000, 2_000_000));
    ball.handle_input(&[Key::D]);
    assert_eq!(ball.common().velocities, pair(1_000_000, 2_000_000));
    ball.handle_input(&[Key::S, Key::D, Key::D]);
    assert_eq!(ball.common().velocities, pair(1_200_000, 2_000_000));
    ball.handle_input(&[Key::D, Key::A]);
    assert_eq!(ball.common().velocities, pair(1_200_000, 2_000_000));
    assert_eq!(ball.common().coords, pair(300_000_000, 100_000_000));
}

#[test]
fn movement_keys_push_for_as_long_as_they_are_held() {
    let mut ball = standing((300_000_000, 100_000_000), (0, 0), None);
    for _ in 0..10 {
        ball.handle_input(&[Key::D]);
    }
    assert_eq!(ball.common().velocities, pair(2_000_000, 0));
}

#[test]
fn jump_from_the_floor_while_moving_upward() {
    let mut ball = standing((300_000_000, 552_000_000), (1_000_000, -300_000), Some(600));
    ball.handle_input(&[Key::W]);
    assert_eq!(ball.common().velocities, pair(1_000_000, -16_300_000));
    assert_eq!(ball.common().coords, pair(300_000_000, 552_000_000));
}

#[test]
fn no_jump_unless_moving_upward() {
    for vy in [0i64, 1, 300_000] {
        let mut ball = standing((300_000_000, 552_000_000), (1_000_000, vy), Some(600));
        ball.handle_input(&[Key::W]);
        assert_eq!(ball.common().velocities, pair(1_000_000, vy));
    }
}

#[test]
fn no_jump_unless_exactly_on_the_floor() {
    for y in [551_999_999i64, 552_000_001, 300_000_000] {
        let mut ball = standing((300_000_000, y), (1_000_000, -300_000), Some(600));
        ball.handle_input(&[Key::W]);
        assert_eq!(ball.common().velocities, pair(1_000_000, -300_000));
    }
    // the floor is where the ball last heard it to be
    let mut ball = standing((300_000_000, 552_000_000), (1_000_000, -300_000), Some(601));
    ball.handle_input(&[Key::W]);
    assert_eq!(ball.common().velocities, pair(1_000_000, -300_000));
}

#[test]
fn no_jump_before_the_viewport_is_known() {
    let mut ball = standing((300_000_000, 552_000_000), (1_000_000, -300_000), None);
    ball.handle_input(&[Key::W]);
    assert_eq!(ball.common().velocities, pair(1_000_000, -300_000));
}

#[test]
fn jump_and_push_together() {
    let mut ball = standing((300_000_000, 552_000_000), (1_000_000, -1), Some(600));
    ball.handle_input(&[Key::W, Key::A]);
    assert_eq!(ball.common().velocities, pair(800_000, -16_000_001));
}
