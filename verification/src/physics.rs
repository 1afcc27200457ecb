//! The laws of motion as pure functions of a body's physical state, and what
//! follows from them.

use crate::body::{CollisionShape, GameObjectCommon, WindowSize, XYPair};
use crate::scalar::{div_toward_zero, Scalar, ONE, TWO};
use vstd::prelude::*;

verus! {

/// Downward acceleration per step, in millionths of a pixel: one half.
pub const GRAVITY: i64 = 500_000;

/// The share of its velocity a body loses to the air per step: a hundredth.
pub const AIR_RESISTANCE_FACTOR: i64 = 10_000;

/// The length of a step: one.
pub const DT: i64 = 1_000_000;

/// The share of its horizontal velocity a body loses when it rolls on the
/// ground: a tenth.
pub const GROUND_DRAG_FACTOR: i64 = 100_000;

/// What gravity adds to the vertical velocity of a body in one step.
pub open spec fn gravity_pull(weight_factor: Scalar) -> Scalar {
    Scalar { micro: GRAVITY }.spec_times(weight_factor).spec_times(Scalar { micro: DT })
}

/// The factor by which the air scales a velocity in one step.
pub open spec fn air_drag() -> Scalar {
    Scalar { micro: ONE }.spec_minus(
        Scalar { micro: AIR_RESISTANCE_FACTOR }.spec_times(Scalar { micro: DT }),
    )
}

/// The velocity after one step of gravity and drag: gravity first, then
/// drag on both components.
pub open spec fn integrate_velocity(v: XYPair, weight_factor: Scalar) -> XYPair {
    XYPair {
        x: v.x.spec_times(air_drag()),
        y: v.y.spec_plus(gravity_pull(weight_factor)).spec_times(air_drag()),
    }
}

/// The position after moving for one step at velocity `v`.
pub open spec fn integrate_position(p: XYPair, v: XYPair) -> XYPair {
    XYPair { x: p.x.spec_plus(v.x), y: p.y.spec_plus(v.y) }
}

/// The speed with which a body leaves an edge that it met at speed `v`:
/// reversed and scaled by its restitution.
pub open spec fn reflect(v: Scalar, bounciness: Scalar) -> Scalar {
    v.spec_negated().spec_times(bounciness)
}

/// The width of a circle of the given radius.
pub open spec fn diameter_of(radius: Scalar) -> Scalar {
    Scalar { micro: TWO }.spec_times(radius)
}

/// The edges of the viewport that a body has crossed.
pub struct Contact {
    pub left: bool,
    pub right: bool,
    pub top: bool,
    pub bottom: bool,
}

/// The edges of a viewport `width` across and `height` down that a circle
/// of diameter `d` at `coords` has crossed. Each edge is tried on the
/// position in which the body arrived. The left edge counts as crossed when
/// it is merely touched; the top edge is crossed by a position less than one
/// diameter below it.
pub open spec fn contact_of(coords: XYPair, d: Scalar, width: Scalar, height: Scalar) -> Contact {
    Contact {
        left: coords.x@ <= 0,
        right: coords.x.spec_plus(d)@ > width@,
        top: coords.y.spec_minus(d)@ < 0,
        bottom: coords.y.spec_plus(d)@ > height@,
    }
}

/// Where the edges put a circle of diameter `d` that has crossed them: on
/// the edge it crossed, and on the right or bottom one if it crossed both of
/// an axis.
pub open spec fn pushed_back(
    coords: XYPair,
    contact: Contact,
    d: Scalar,
    width: Scalar,
    height: Scalar,
) -> XYPair {
    XYPair {
        x: if contact.right {
            width.spec_minus(d)
        } else if contact.left {
            Scalar { micro: 0 }
        } else {
            coords.x
        },
        y: if contact.bottom {
            height.spec_minus(d)
        } else if contact.top {
            d
        } else {
            coords.y
        },
    }
}

/// The velocity with which a body leaves the edges it has crossed. Every
/// crossed edge reverses the velocity along its axis and scales it by the
/// restitution, in the order left, right, top, bottom. A body that has
/// crossed the bottom edge is on the ground: if it leaves the ground at a
/// speed of at most one it is rolling, and loses a tenth of the horizontal
/// velocity it has by then.
pub open spec fn bounced(v: XYPair, contact: Contact, bounciness: Scalar) -> XYPair {
    let x1 = if contact.left {
        reflect(v.x, bounciness)
    } else {
        v.x
    };
    let x2 = if contact.right {
        reflect(x1, bounciness)
    } else {
        x1
    };
    let y1 = if contact.top {
        reflect(v.y, bounciness)
    } else {
        v.y
    };
    let y2 = if contact.bottom {
        reflect(y1, bounciness)
    } else {
        y1
    };
    XYPair {
        x: if contact.bottom && y2.spec_magnitude()@ <= ONE {
            x2.spec_minus(x2.spec_times(Scalar { micro: GROUND_DRAG_FACTOR }))
        } else {
            x2
        },
        y: y2,
    }
}

/// Position and velocity of a circle of diameter `d` after it has been
/// pushed back inside the edges `0..width` by `0..height`.
pub open spec fn resolve_circle(
    coords: XYPair,
    velocities: XYPair,
    d: Scalar,
    bounciness: Scalar,
    width: Scalar,
    height: Scalar,
) -> (XYPair, XYPair) {
    let contact = contact_of(coords, d, width, height);
    (pushed_back(coords, contact, d, width, height), bounced(velocities, contact, bounciness))
}

/// The physical state of a body of the given shape and restitution after
/// its collisions with the edges of the viewport have been resolved.
pub open spec fn resolve_collisions(
    state: GameObjectCommon,
    shape: CollisionShape,
    bounciness: Scalar,
    window: WindowSize,
) -> GameObjectCommon {
    match shape {
        CollisionShape::Circle(radius) => {
            let (coords, velocities) = resolve_circle(
                state.coords,
                state.velocities,
                diameter_of(radius),
                bounciness,
                Scalar::spec_from_whole(window.width as int),
                Scalar::spec_from_whole(window.height as int),
            );
            GameObjectCommon { coords, velocities, object_info: state.object_info }
        },
    }
}

/// Whether the viewport is small enough for its width and height to be
/// exact scalars.
pub open spec fn measurable(window: WindowSize) -> bool {
    &&& window.width * ONE < i64::MAX
    &&& window.height * ONE < i64::MAX
}

/// Whether a body of the given shape has room in the viewport: a circle
/// needs its diameter across and twice its diameter down, because the top
/// edge stops its position one diameter below the top of the viewport.
pub open spec fn fits(shape: CollisionShape, window: WindowSize) -> bool {
    match shape {
        CollisionShape::Circle(radius) => {
            &&& measurable(window)
            &&& diameter_of(radius)@ <= window.width * ONE
            &&& 2 * diameter_of(radius)@ <= window.height * ONE
        },
    }
}

/// Whether the body touches no edge of the viewport: no edge would move it.
pub open spec fn clear_of_edges(
    state: GameObjectCommon,
    shape: CollisionShape,
    window: WindowSize,
) -> bool {
    match shape {
        CollisionShape::Circle(radius) => {
            let d = diameter_of(radius);
            &&& state.coords.x@ > 0
            &&& state.coords.x.spec_plus(d)@ <= Scalar::spec_from_whole(window.width as int)@
            &&& state.coords.y.spec_minus(d)@ >= 0
            &&& state.coords.y.spec_plus(d)@ <= Scalar::spec_from_whole(window.height as int)@
        },
    }
}

/// With a step of length one, the air leaves ninety-nine hundredths of a
/// velocity, and gravity adds its constant times the weight factor.
pub proof fn lemma_step_factors(weight_factor: Scalar)
    ensures
        air_drag()@ == 990_000,
        gravity_pull(weight_factor) == (Scalar { micro: GRAVITY }).spec_times(weight_factor),
{
}

/// Velocity integration in plain numbers. Drag never saturates, because it
/// only shrinks a velocity; so as long as adding gravity stays in range, the
/// horizontal velocity becomes `vx * 0.99` and the vertical velocity
/// `(vy + 0.5 * weight_factor) * 0.99`, each product rounded toward zero to a
/// whole number of millionths.
pub proof fn lemma_integrate_velocity_plain(v: XYPair, weight_factor: Scalar)
    requires
        i64::MIN <= v.y@ + div_toward_zero(GRAVITY * weight_factor@, ONE as int) <= i64::MAX,
    ensures
        integrate_velocity(v, weight_factor).x@ == div_toward_zero(v.x@ * 990_000, ONE as int),
        integrate_velocity(v, weight_factor).y@ == div_toward_zero(
            (v.y@ + div_toward_zero(GRAVITY * weight_factor@, ONE as int)) * 990_000,
            ONE as int,
        ),
{
    lemma_step_factors(weight_factor);
    let pull = (Scalar { micro: GRAVITY }).spec_times(weight_factor);
    assert(pull@ == div_toward_zero(GRAVITY * weight_factor@, ONE as int));
    let sum = v.y.spec_plus(pull);
    assert(sum@ == v.y@ + pull@);
    assert(sum.spec_times(air_drag())@ == div_toward_zero(sum@ * 990_000, ONE as int));
}

/// A body that fits the viewport is inside it once its collisions are
/// resolved: between the left and right edges, and between one diameter
/// below the top edge and the bottom edge.
pub proof fn lemma_resolved_inside(
    state: GameObjectCommon,
    shape: CollisionShape,
    bounciness: Scalar,
    window: WindowSize,
)
    requires
        fits(shape, window),
    ensures
        ({
            let after = resolve_collisions(state, shape, bounciness, window);
            let d = diameter_of(shape->0);
            &&& 0 <= after.coords.x@
            &&& after.coords.x@ + d@ <= window.width * ONE
            &&& d@ <= after.coords.y@
            &&& after.coords.y@ + d@ <= window.height * ONE
        }),
{
}

/// In a viewport that the body fits, at most one edge of each axis is
/// crossed at a time, so no bounce is ever doubled.
pub proof fn lemma_one_edge_per_axis(coords: XYPair, shape: CollisionShape, window: WindowSize)
    requires
        fits(shape, window),
    ensures
        ({
            let contact = contact_of(
                coords,
                diameter_of(shape->0),
                Scalar::spec_from_whole(window.width as int),
                Scalar::spec_from_whole(window.height as int),
            );
            &&& !(contact.left && contact.right)
            &&& !(contact.top && contact.bottom)
        }),
{
}

/// Resolving the collisions of a body that touches no edge changes nothing.
pub proof fn lemma_clear_is_unchanged(
    state: GameObjectCommon,
    shape: CollisionShape,
    bounciness: Scalar,
    window: WindowSize,
)
    requires
        clear_of_edges(state, shape, window),
    ensures
        resolve_collisions(state, shape, bounciness, window) == state,
{
}

/// Resolving collisions a second time, in a viewport that the body fits,
/// moves nothing and leaves the vertical velocity alone. It changes nothing
/// at all unless the body sits exactly on the left edge: that edge counts as
/// crossed when it is merely touched, so there the horizontal velocity is
/// reflected once more.
pub proof fn lemma_resolving_twice(
    state: GameObjectCommon,
    shape: CollisionShape,
    bounciness: Scalar,
    window: WindowSize,
)
    requires
        fits(shape, window),
    ensures
        ({
            let once = resolve_collisions(state, shape, bounciness, window);
            let twice = resolve_collisions(once, shape, bounciness, window);
            &&& twice.coords == once.coords
            &&& twice.velocities.y == once.velocities.y
            &&& twice.object_info == once.object_info
            &&& once.coords.x@ > 0 ==> twice == once
            &&& once.coords.x@ > 0 <==> clear_of_edges(once, shape, window)
            &&& once.coords.x@ == 0 ==> twice.velocities.x == reflect(
                once.velocities.x,
                bounciness,
            )
        }),
{
}

/// A body that reaches below the floor, touches no other edge and leaves
/// the floor at a speed of at most one is put back on the floor, and keeps
/// its horizontal velocity less a tenth of it.
pub proof fn lemma_ground_drag(
    state: GameObjectCommon,
    shape: CollisionShape,
    bounciness: Scalar,
    window: WindowSize,
)
    requires
        ({
            let d = diameter_of(shape->0);
            &&& state.coords.x@ > 0
            &&& state.coords.x.spec_plus(d)@ <= Scalar::spec_from_whole(window.width as int)@
            &&& state.coords.y.spec_minus(d)@ >= 0
            &&& state.coords.y.spec_plus(d)@ > Scalar::spec_from_whole(window.height as int)@
            &&& reflect(state.velocities.y, bounciness).spec_magnitude()@ <= ONE
        }),
    ensures
        ({
            let after = resolve_collisions(state, shape, bounciness, window);
            let d = diameter_of(shape->0);
            &&& after.coords.x == state.coords.x
            &&& after.coords.y == Scalar::spec_from_whole(window.height as int).spec_minus(d)
            &&& after.velocities.y == reflect(state.velocities.y, bounciness)
            &&& after.velocities.x == state.velocities.x.spec_minus(
                state.velocities.x.spec_times(Scalar { micro: GROUND_DRAG_FACTOR }),
            )
        }),
{
}

} // verus!
