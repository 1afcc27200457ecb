//! The ball: a filled disc that the player can push sideways and make jump.

use crate::body::{grid_of, CollisionShape, GameObject, GameObjectCommon, Key, XYPair};
use crate::color::{packed_color, parse_color};
use crate::physics::diameter_of;
use crate::scalar::{Scalar, ONE, TWO};
use vstd::prelude::*;

verus! {

/// What a held movement key adds to the horizontal velocity each frame: a
/// fifth of a pixel per step.
pub const KB_X_BOOST: i64 = 200_000;

/// The upward velocity of a jump: sixteen pixels per step.
pub const KB_Y_BOOST: i64 = 16_000_000;

/// The factor by which gravity pulls on a ball: eight tenths.
pub const BALL_WEIGHT_FACTOR: i64 = 800_000;

/// The share of its speed that a ball keeps in a bounce: six tenths.
pub const BALL_BOUNCINESS: i64 = 600_000;

/// Whether the cell `(x, y)` of the raster of a disc lies on the disc: no
/// farther from the centre `(radius, radius)` than `radius`. The cell is
/// given in whole pixels, the radius in millionths.
pub open spec fn on_disc(x: int, y: int, radius: int) -> bool {
    (x * ONE - radius) * (x * ONE - radius) + (y * ONE - radius) * (y * ONE - radius) <= radius
        * radius
}

/// The landmarks of a disc whose radius is a positive whole number `r` of
/// pixels: the middle of its top row and of its left column lie on it, and
/// so does its centre; the corner of its raster does not.
pub proof fn lemma_disc_landmarks(r: int)
    requires
        r >= 1,
    ensures
        on_disc(r, 0, r * ONE),
        on_disc(0, r, r * ONE),
        on_disc(r, r, r * ONE),
        !on_disc(0, 0, r * ONE),
{
    let radius = r * ONE;
    assert((0 * ONE - radius) * (0 * ONE - radius) == radius * radius) by (nonlinear_arith);
    assert((r * ONE - radius) * (r * ONE - radius) == 0) by (nonlinear_arith)
        requires
            radius == r * ONE,
    ;
    assert(radius * radius > 0) by (nonlinear_arith)
        requires
            radius >= 1,
    ;
}

/// The raster of a disc: a square of as many cells as the diameter has whole
/// pixels, `color` on the disc and transparent elsewhere.
pub open spec fn disc_raster(radius: Scalar, diameter: Scalar, color: u32) -> Seq<Seq<u32>> {
    let side = diameter.spec_whole_part();
    Seq::new(
        side,
        |y: int|
            Seq::new(
                side,
                |x: int|
                    if on_disc(x, y, radius@) {
                        color
                    } else {
                        0u32
                    },
            ),
    )
}

/// How a ball of the given diameter answers the keys: `A` and `D` push it
/// left and right for as long as they are held; `W` makes it jump, but only
/// while it moves upward and its lower edge is exactly on the floor of the
/// viewport it last heard of.
pub open spec fn ball_reaction(
    state: GameObjectCommon,
    diameter: Scalar,
    keys: Seq<Key>,
) -> GameObjectCommon {
    let kb_x = Scalar { micro: KB_X_BOOST };
    let pushed_left = if keys.contains(Key::A) {
        state.velocities.x.spec_minus(kb_x)
    } else {
        state.velocities.x
    };
    let pushed = if keys.contains(Key::D) {
        pushed_left.spec_plus(kb_x)
    } else {
        pushed_left
    };
    let jumps = keys.contains(Key::W) && state.object_info is Some && state.velocities.y@ < 0
        && state.coords.y.spec_plus(diameter) == Scalar::spec_from_whole(
        state.object_info->0.window_size.height as int,
    );
    let lifted = if jumps {
        state.velocities.y.spec_minus(Scalar { micro: KB_Y_BOOST })
    } else {
        state.velocities.y
    };
    GameObjectCommon {
        coords: state.coords,
        velocities: XYPair { x: pushed, y: lifted },
        object_info: state.object_info,
    }
}

/// Whatever keys are held, a ball reacts with its velocity alone: it stays
/// where it is and forgets nothing about its surroundings. Its vertical
/// velocity is kept or lifted by one jump, never more.
pub proof fn lemma_ball_reaction_keeps_place(
    state: GameObjectCommon,
    diameter: Scalar,
    keys: Seq<Key>,
)
    ensures
        ball_reaction(state, diameter, keys).coords == state.coords,
        ball_reaction(state, diameter, keys).object_info == state.object_info,
        ball_reaction(state, diameter, keys).velocities.y == state.velocities.y || (
        state.velocities.y@ < 0 && ball_reaction(state, diameter, keys).velocities.y
            == state.velocities.y.spec_minus(Scalar { micro: KB_Y_BOOST })),
        !keys.contains(Key::A) && !keys.contains(Key::D) && !keys.contains(Key::W)
            ==> ball_reaction(state, diameter, keys) == state,
{
}

/// Whether `key` is among `keys`.
pub fn key_is_down(keys: &[Key], key: Key) -> (down: bool)
    ensures
        down == keys@.contains(key),
{
    let mut i: usize = 0;
    while i < keys.len()
        invariant
            i <= keys.len(),
            forall|j: int| 0 <= j < i ==> keys@[j] != key,
        decreases keys.len() - i,
    {
        if keys[i] == key {
            return true;
        }
        i = i + 1;
    }
    false
}

pub struct Ball {
    radius: Scalar,
    diameter: Scalar,
    color: u32,
    common: GameObjectCommon,
}

impl Ball {
    pub closed spec fn spec_diameter(&self) -> Scalar {
        self.diameter
    }

    pub closed spec fn spec_radius(&self) -> Scalar {
        self.radius
    }

    pub closed spec fn spec_color(&self) -> u32 {
        self.color
    }

    /// A ball of the given radius at rest at `coords`, in the colour that
    /// `color_hex` names in the form `#RRGGBB`, or white.
    pub fn new(coords: XYPair, radius: Scalar, color_hex: &str) -> (ball: Ball)
        ensures
            ball.state() == (GameObjectCommon {
                coords,
                velocities: XYPair { x: Scalar { micro: 0 }, y: Scalar { micro: 0 } },
                object_info: None,
            }),
            ball.spec_radius() == radius,
            ball.spec_diameter() == diameter_of(radius),
            ball.spec_color() == packed_color(color_hex@),
    {
        let diameter = radius.times(Scalar::from_micro(TWO));
        assert(radius@ * TWO == TWO * radius@) by (nonlinear_arith);
        let color = parse_color(color_hex);
        let common = GameObjectCommon {
            coords,
            velocities: XYPair { x: Scalar::zero(), y: Scalar::zero() },
            object_info: None,
        };
        Ball { color, radius, diameter, common }
    }

    pub fn radius(&self) -> (r: Scalar)
        ensures
            r == self.spec_radius(),
    {
        self.radius
    }

    pub fn color(&self) -> (c: u32)
        ensures
            c == self.spec_color(),
    {
        self.color
    }
}

impl GameObject for Ball {
    closed spec fn state(&self) -> GameObjectCommon {
        self.common
    }

    open spec fn spec_weight_factor(&self) -> Scalar {
        Scalar { micro: BALL_WEIGHT_FACTOR }
    }

    open spec fn spec_bounciness(&self) -> Scalar {
        Scalar { micro: BALL_BOUNCINESS }
    }

    open spec fn spec_collision_shape(&self) -> CollisionShape {
        CollisionShape::Circle(self.spec_radius())
    }

    open spec fn spec_draw(&self) -> Seq<Seq<u32>> {
        disc_raster(self.spec_radius(), self.spec_diameter(), self.spec_color())
    }

    open spec fn reaction(&self, state: GameObjectCommon, keys: Seq<Key>) -> GameObjectCommon {
        ball_reaction(state, self.spec_diameter(), keys)
    }

    fn common(&mut self) -> (r: &mut GameObjectCommon)
        ensures
            final(self).spec_radius() == old(self).spec_radius(),
            final(self).spec_diameter() == old(self).spec_diameter(),
            final(self).spec_color() == old(self).spec_color(),
    {
        &mut self.common
    }

    fn weight_factor(&self) -> (r: Scalar) {
        Scalar::from_micro(BALL_WEIGHT_FACTOR)
    }

    fn bounciness(&self) -> (r: Scalar) {
        Scalar::from_micro(BALL_BOUNCINESS)
    }

    fn collision_shape(&self) -> (r: CollisionShape) {
        CollisionShape::Circle(self.radius)
    }

    fn draw(&self) -> (r: Vec<Vec<u32>>) {
        let side: usize = self.diameter.whole_part();
        let mut raster: Vec<Vec<u32>> = Vec::new();
        let mut y: usize = 0;
        while y < side
            invariant
                y <= side,
                side == self.diameter.spec_whole_part(),
                raster.len() == y,
                forall|j: int|
                    0 <= j < y ==> (#[trigger] raster[j])@ =~= disc_raster(
                        self.radius,
                        self.diameter,
                        self.color,
                    )[j],
            decreases side - y,
        {
            let mut row: Vec<u32> = Vec::new();
            let mut x: usize = 0;
            while x < side
                invariant
                    x <= side,
                    y < side,
                    side == self.diameter.spec_whole_part(),
                    row.len() == x,
                    forall|i: int|
                        0 <= i < x ==> #[trigger] row[i] == disc_raster(
                            self.radius,
                            self.diameter,
                            self.color,
                        )[y as int][i],
                decreases side - x,
            {
                let pixel: u32 = if Ball::covers(self.radius, x, y) {
                    self.color
                } else {
                    0
                };
                row.push(pixel);
                x = x + 1;
            }
            raster.push(row);
            y = y + 1;
        }
        assert(grid_of(raster) =~~= disc_raster(self.radius, self.diameter, self.color));
        raster
    }

    fn handle_input(&mut self, keys: &[Key])
        ensures
            final(self).spec_radius() == old(self).spec_radius(),
            final(self).spec_diameter() == old(self).spec_diameter(),
            final(self).spec_color() == old(self).spec_color(),
    {
        if key_is_down(keys, Key::A) {
            self.common.velocities.x = self.common.velocities.x.minus(
                Scalar::from_micro(KB_X_BOOST),
            );
        }
        if key_is_down(keys, Key::D) {
            self.common.velocities.x = self.common.velocities.x.plus(
                Scalar::from_micro(KB_X_BOOST),
            );
        }
        // jump only from the ground, and only while moving upward
        if key_is_down(keys, Key::W) {
            if let Some(info) = self.common.object_info {
                let window_height = Scalar::from_whole(info.window_size.height);
                if self.common.velocities.y.is_below(Scalar::zero())
                    && self.common.coords.y.plus(self.diameter).is_exactly(window_height) {
                    self.common.velocities.y = self.common.velocities.y.minus(
                        Scalar::from_micro(KB_Y_BOOST),
                    );
                }
            }
        }
    }
}

impl Ball {
    /// Whether the disc of the given radius covers the cell `(x, y)` of its
    /// raster.
    fn covers(radius: Scalar, x: usize, y: usize) -> (r: bool)
        ensures
            r == on_disc(x as int, y as int, radius@),
    {
        let limit: u128 = 0x8000_0000_0000_0000;
        let dx: u128 = Ball::distance(radius, x);
        let dy: u128 = Ball::distance(radius, y);
        let r: u128 = Ball::distance(radius, 0);
        assert(dx * dx == (x * ONE - radius@) * (x * ONE - radius@)) by (nonlinear_arith)
            requires
                dx == x * ONE - radius@ || dx == radius@ - x * ONE,
        ;
        assert(dy * dy == (y * ONE - radius@) * (y * ONE - radius@)) by (nonlinear_arith)
            requires
                dy == y * ONE - radius@ || dy == radius@ - y * ONE,
        ;
        assert(r * r == radius@ * radius@) by (nonlinear_arith)
            requires
                r == radius@ || r == -radius@,
        ;
        assert(r * r <= limit * limit) by (nonlinear_arith)
            requires
                r <= limit,
        ;
        if dx > limit || dy > limit {
            assert(dx * dx + dy * dy > limit * limit) by (nonlinear_arith)
                requires
                    dx > limit || dy > limit,
                    limit >= 0,
                    dx >= 0,
                    dy >= 0,
            ;
            false
        } else {
            assert(dx * dx <= 0x4000_0000_0000_0000_0000_0000_0000_0000) by (nonlinear_arith)
                requires
                    dx <= 0x8000_0000_0000_0000,
            ;
            assert(dy * dy <= 0x4000_0000_0000_0000_0000_0000_0000_0000) by (nonlinear_arith)
                requires
                    dy <= 0x8000_0000_0000_0000,
            ;
            assert(r * r <= 0x4000_0000_0000_0000_0000_0000_0000_0000) by (nonlinear_arith)
                requires
                    r <= 0x8000_0000_0000_0000,
            ;
            dx * dx + dy * dy <= r * r
        }
    }

    /// How far the whole pixel `p` is from `centre` along one axis, in
    /// millionths.
    fn distance(centre: Scalar, p: usize) -> (d: u128)
        ensures
            d == p * ONE - centre@ || d == centre@ - p * ONE,
            d >= 0,
            p == 0 ==> d <= 0x8000_0000_0000_0000,
    {
        let at: i128 = (p as i128) * 1_000_000;
        let c: i128 = centre.micro as i128;
        assert(at == p * ONE);
        if at >= c {
            (at - c) as u128
        } else {
            (c - at) as u128
        }
    }
}

} // verus!
