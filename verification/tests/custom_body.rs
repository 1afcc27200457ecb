use bouncy::body::DEFAULT_COLLISION_DAMPING_FACTOR;
use bouncy::{
    Ball, CollisionShape, Engine, GameObject, GameObjectCommon, Key, Scalar, WindowSize, XYPair,
};

/// A heavy disc that ignores the keyboard and paints itself as one pixel.
struct Pebble {
    common: GameObjectCommon,
}

impl GameObject for Pebble {
    // what only proofs ask for is never called
    fn state(&self) -> GameObjectCommon {
        unreachable!()
    }

    fn spec_weight_factor(&self) -> Scalar {
        unreachable!()
    }

    fn spec_collision_shape(&self) -> CollisionShape {
        unreachable!()
    }

    fn spec_draw(&self) -> vstd::seq::Seq<vstd::seq::Seq<u32>> {
        unreachable!()
    }

    fn common(&mut self) -> &mut GameObjectCommon {
        &mut self.common
    }

    fn weight_factor(&self) -> Scalar {
        Scalar::from_micro(2_000_000)
    }

    fn bounciness(&self) -> Scalar {
        Scalar::from_micro(DEFAULT_COLLISION_DAMPING_FACTOR)
    }

    fn collision_shape(&self) -> CollisionShape {
        CollisionShape::Circle(Scalar::from_micro(500_000))
    }

    fn draw(&self) -> Vec<Vec<u32>> {
        vec![vec![0xabcdef]]
    }

    fn handle_input(&mut self, _keys: &[Key]) {}
}

fn pair(x_micro: i64, y_micro: i64) -> XYPair {
    XYPair { x: Scalar::from_micro(x_micro), y: Scalar::from_micro(y_micro) }
}

#[test]
fn bodies_of_different_kinds_share_an_engine() {
    let mut engine = Engine::new(&WindowSize { height: 100, width: 100 });
    engine.add_game_object(Box::new(Ball::new(pair(10_000_000, 10_000_000), Scalar::from_micro(4_000_000), "#000001")));
    engine.add_game_object(Box::new(Pebble {
        common: GameObjectCommon { coords: pair(13_000_000, 13_000_000), ..GameObjectCommon::default() },
    }));
    assert!(engine.frame(true, false, &[Key::D]));
    // the ball: gravity 0.5 * 0.8, drag, and a push to the right
    let ball = engine.object_state(0);
    assert_eq!(ball.velocities, pair(200_000, 396_000));
    assert_eq!(ball.coords, pair(10_000_000, 10_396_000));
    // the pebble: gravity 0.5 * 2, drag, no reaction to the key
    let pebble = engine.object_state(1);
    assert_eq!(pebble.velocities, pair(0, 990_000));
    assert_eq!(pebble.coords, pair(13_000_000, 13_990_000));
    // the pebble is painted over the ball
    assert_eq!(engine.buffer()[13 * 100 + 13], 0xabcdef);
    assert_eq!(engine.buffer()[13 * 100 + 14], 1);
}

#[test]
fn default_restitution_keeps_eight_tenths() {
    let mut pebble: Box<dyn GameObject> = Box::new(Pebble {
        common: GameObjectCommon {
            coords: pair(50_000_000, 99_500_000),
            velocities: pair(1_000_000, 5_000_000),
            object_info: None,
        },
    });
    Engine::collision_checks(&WindowSize { height: 100, width: 100 }, &mut pebble);
    let after = *pebble.common();
    assert_eq!(after.coords, pair(50_000_000, 99_000_000));
    assert_eq!(after.velocities, pair(1_000_000, -4_000_000));
}
