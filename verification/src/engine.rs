//! The engine: it owns the pixel buffer, the viewport and the bodies, and
//! advances them one frame at a time.

use crate::body::{
    grid_of, same_body, CollisionShape, GameObject, GameObjectCommon, Key, ObjectInfo, WindowSize, XYPair,
};
use crate::canvas::{composited, lemma_cell_of_index, lemma_index_of_cell, partly_composited};
use crate::physics::{
    clear_of_edges, diameter_of, fits, integrate_position, integrate_velocity,
    lemma_clear_is_unchanged, lemma_resolved_inside, resolve_collisions, AIR_RESISTANCE_FACTOR,
    DT, GRAVITY, GROUND_DRAG_FACTOR,
};
use crate::scalar::{Scalar, ONE, TWO};
use vstd::prelude::*;

verus! {

/// The physical state of a body after the engine has moved it for one
/// frame: velocity first, then position, then the edges of the viewport,
/// and at last the size of the viewport is made known to it.
pub open spec fn advanced(
    state: GameObjectCommon,
    weight_factor: Scalar,
    bounciness: Scalar,
    shape: CollisionShape,
    window: WindowSize,
) -> GameObjectCommon {
    let velocities = integrate_velocity(state.velocities, weight_factor);
    let coords = integrate_position(state.coords, velocities);
    let moved = GameObjectCommon { coords, velocities, object_info: state.object_info };
    let resolved = resolve_collisions(moved, shape, bounciness, window);
    GameObjectCommon {
        coords: resolved.coords,
        velocities: resolved.velocities,
        object_info: Some(ObjectInfo { window_size: window }),
    }
}

/// The physical state of `body` at the end of a frame in which `keys` are
/// held down: moved by the engine, then changed by its own reaction to input.
pub open spec fn after_frame(
    body: &Box<dyn GameObject>,
    window: WindowSize,
    keys: Seq<Key>,
) -> GameObjectCommon {
    body.reaction(
        advanced(
            body.state(),
            body.spec_weight_factor(),
            body.spec_bounciness(),
            body.spec_collision_shape(),
            window,
        ),
        keys,
    )
}

/// A body that fits the viewport is inside it after the engine has moved it,
/// wherever it was and however fast it moved.
pub proof fn lemma_advanced_inside(
    state: GameObjectCommon,
    weight_factor: Scalar,
    bounciness: Scalar,
    shape: CollisionShape,
    window: WindowSize,
)
    requires
        fits(shape, window),
    ensures
        ({
            let after = advanced(state, weight_factor, bounciness, shape, window);
            let d = diameter_of(shape->0);
            &&& 0 <= after.coords.x@
            &&& after.coords.x@ + d@ <= window.width * ONE
            &&& d@ <= after.coords.y@
            &&& after.coords.y@ + d@ <= window.height * ONE
            &&& after.object_info == Some(ObjectInfo { window_size: window })
        }),
{
    let velocities = integrate_velocity(state.velocities, weight_factor);
    let coords = integrate_position(state.coords, velocities);
    let moved = GameObjectCommon { coords, velocities, object_info: state.object_info };
    lemma_resolved_inside(moved, shape, bounciness, window);
}

/// A body that touches no edge after it has moved is in free flight: the
/// engine changes its velocity by gravity and drag, its position by that
/// velocity, and nothing else.
pub proof fn lemma_free_flight(
    state: GameObjectCommon,
    weight_factor: Scalar,
    bounciness: Scalar,
    shape: CollisionShape,
    window: WindowSize,
)
    requires
        ({
            let velocities = integrate_velocity(state.velocities, weight_factor);
            let coords = integrate_position(state.coords, velocities);
            clear_of_edges(
                GameObjectCommon { coords, velocities, object_info: state.object_info },
                shape,
                window,
            )
        }),
    ensures
        ({
            let after = advanced(state, weight_factor, bounciness, shape, window);
            &&& after.velocities == integrate_velocity(state.velocities, weight_factor)
            &&& after.coords == integrate_position(state.coords, after.velocities)
        }),
{
    let velocities = integrate_velocity(state.velocities, weight_factor);
    let coords = integrate_position(state.coords, velocities);
    let moved = GameObjectCommon { coords, velocities, object_info: state.object_info };
    lemma_clear_is_unchanged(moved, shape, bounciness, window);
}

/// A buffer of `len` cells, all of colour 0.
pub open spec fn blank(len: nat) -> Seq<u32> {
    Seq::new(len, |i: int| 0u32)
}

/// The buffer of rows of `width` cells and `len` cells in all after the
/// first `count` of `bodies` have been painted over a blank buffer, each
/// where it stands, one after the other.
pub open spec fn painting(
    bodies: Seq<Box<dyn GameObject>>,
    count: nat,
    width: int,
    len: nat,
) -> Seq<u32>
    decreases count,
{
    if count == 0 {
        blank(len)
    } else {
        let body = bodies[count - 1];
        composited(
            painting(bodies, (count - 1) as nat, width, len),
            width,
            body.spec_draw(),
            body.state().coords.x.spec_floor(),
            body.state().coords.y.spec_floor(),
        )
    }
}

pub struct Engine {
    buffer: Vec<u32>,
    window_size: WindowSize,
    objects: Vec<Box<dyn GameObject>>,
}

impl Engine {
    /// The size of the viewport.
    pub closed spec fn viewport(&self) -> WindowSize {
        self.window_size
    }

    /// The pixel buffer, row by row.
    pub closed spec fn pixels(&self) -> Seq<u32> {
        self.buffer@
    }

    /// The bodies, in the order in which they were added.
    pub closed spec fn bodies(&self) -> Seq<Box<dyn GameObject>> {
        self.objects@
    }

    /// Whether the buffer has one cell for each pixel of the viewport.
    pub open spec fn wf(&self) -> bool {
        self.pixels().len() == self.viewport().width * self.viewport().height
    }

    /// An engine without bodies, with a blank buffer for a viewport of the
    /// given size.
    pub fn new(window_size: &WindowSize) -> (engine: Engine)
        requires
            window_size.width * window_size.height <= usize::MAX,
        ensures
            engine.wf(),
            engine.viewport() == *window_size,
            engine.pixels() == blank((window_size.width * window_size.height) as nat),
            engine.bodies().len() == 0,
    {
        let mut buffer: Vec<u32> = Vec::new();
        let len: usize = window_size.width * window_size.height;
        let mut i: usize = 0;
        while i < len
            invariant
                i <= len,
                buffer@ == blank(i as nat),
            decreases len - i,
        {
            buffer.push(0);
            i = i + 1;
            assert(buffer@ =~= blank(i as nat));
        }
        Engine { buffer, window_size: *window_size, objects: Vec::new() }
    }

    /// Adds a body behind those that are there: it is moved and painted
    /// after them.
    pub fn add_game_object(&mut self, game_object: Box<dyn GameObject>)
        ensures
            final(self).viewport() == old(self).viewport(),
            final(self).pixels() == old(self).pixels(),
            final(self).bodies() == old(self).bodies().push(game_object),
    {
        self.objects.push(game_object);
    }

    /// The pixel buffer, for the surface that shows it.
    pub fn buffer(&self) -> (buffer: &Vec<u32>)
        ensures
            buffer@ == self.pixels(),
    {
        &self.buffer
    }

    /// The size of the viewport.
    pub fn window_size(&self) -> (size: WindowSize)
        ensures
            size == self.viewport(),
    {
        self.window_size
    }

    /// How many bodies the engine holds.
    pub fn object_count(&self) -> (count: usize)
        ensures
            count == self.bodies().len(),
    {
        self.objects.len()
    }

    /// The physical state of the body at `index`.
    pub fn object_state(&mut self, index: usize) -> (state: GameObjectCommon)
        requires
            index < old(self).bodies().len(),
        ensures
            state == old(self).bodies()[index as int].state(),
            final(self).viewport() == old(self).viewport(),
            final(self).pixels() == old(self).pixels(),
            final(self).bodies().len() == old(self).bodies().len(),
            forall|i: int|
                0 <= i < old(self).bodies().len() ==> {
                    &&& same_body(&old(self).bodies()[i], #[trigger] &final(self).bodies()[i])
                    &&& final(self).bodies()[i].state() == old(self).bodies()[i].state()
                },
    {
        *self.objects[index].common()
    }

    /// Paints the body into the buffer where it stands.
    pub fn draw(buffer: &mut Vec<u32>, window_size: &WindowSize, object: &mut Box<dyn GameObject>)
        requires
            old(buffer).len() == window_size.width * window_size.height,
        ensures
            final(buffer)@ == composited(
                old(buffer)@,
                window_size.width as int,
                old(object).spec_draw(),
                old(object).state().coords.x.spec_floor(),
                old(object).state().coords.y.spec_floor(),
            ),
            final(object).state() == old(object).state(),
            same_body(old(object), final(object)),
    {
        let raster_vecs = object.draw();
        let common = object.common();
        let coords = common.coords;
        Engine::draw_at(buffer, window_size.width, window_size.height, raster_vecs, &coords);
    }

    /// Runs one frame with `keys` held down: blanks the buffer, then takes
    /// the bodies in order, moves each, lets it react to the keys and paints
    /// it.
    pub fn update(&mut self, keys: &[Key])
        requires
            old(self).wf(),
        ensures
            final(self).wf(),
            final(self).viewport() == old(self).viewport(),
            final(self).bodies().len() == old(self).bodies().len(),
            forall|i: int|
                0 <= i < old(self).bodies().len() ==> same_body(
                    &old(self).bodies()[i],
                    #[trigger] &final(self).bodies()[i],
                ),
            forall|i: int|
                0 <= i < old(self).bodies().len() ==> (#[trigger] final(self).bodies()[i]).state()
                    == after_frame(&old(self).bodies()[i], old(self).viewport(), keys@),
            final(self).pixels() == painting(
                final(self).bodies(),
                final(self).bodies().len(),
                final(self).viewport().width as int,
                final(self).pixels().len(),
            ),
    {
        // clear the display buffer
        let len: usize = self.buffer.len();
        let mut p: usize = 0;
        while p < len
            invariant
                p <= len,
                self.buffer.len() == len,
                self.window_size == old(self).window_size,
                self.objects == old(self).objects,
                forall|j: int| 0 <= j < p ==> self.buffer@[j] == 0,
            decreases len - p,
        {
            self.buffer.set(p, 0);
            p = p + 1;
        }
        assert(self.buffer@ =~= blank(len as nat));

        let count: usize = self.objects.len();
        let ghost before = self.objects@;
        let ghost window = self.window_size;
        let mut i: usize = 0;
        while i < count
            invariant
                i <= count,
                count == before.len(),
                self.objects.len() == count,
                self.window_size == window,
                self.buffer.len() == len,
                len == window.width * window.height,
                forall|j: int| i <= j < count ==> self.objects@[j] == before[j],
                forall|j: int| 0 <= j < count ==> same_body(&before[j], #[trigger] &self.objects@[j]),
                forall|j: int|
                    0 <= j < i ==> (#[trigger] self.objects@[j]).state() == after_frame(
                        &before[j],
                        window,
                        keys@,
                    ),
                self.buffer@ == painting(self.objects@, i as nat, window.width as int, len as nat),
            decreases count - i,
        {
            let ghost earlier = self.objects@;
            let object = &mut self.objects[i];

            // re-calculate the velocities of the object
            Engine::calc_velocities(object);

            // apply the velocities to the coordinates
            Engine::apply_velocities(object);

            // perform collision checks with the window
            Engine::collision_checks(&self.window_size, object);

            // update the game object's info
            Engine::update_object_info(&self.window_size, object);

            // allow the object to react to pressed keys
            object.handle_input(keys);

            // draw the object on the buffer at its coords
            Engine::draw(&mut self.buffer, &self.window_size, object);

            proof {
                Engine::lemma_painting_ignores_later(
                    earlier,
                    self.objects@,
                    i as nat,
                    window.width as int,
                    len as nat,
                );
            }
            i = i + 1;
        }
    }

    /// What has been painted of the first `count` bodies does not depend on
    /// the bodies behind them.
    proof fn lemma_painting_ignores_later(
        a: Seq<Box<dyn GameObject>>,
        b: Seq<Box<dyn GameObject>>,
        count: nat,
        width: int,
        len: nat,
    )
        requires
            count <= a.len(),
            count <= b.len(),
            forall|j: int| 0 <= j < count ==> a[j] == b[j],
        ensures
            painting(a, count, width, len) == painting(b, count, width, len),
        decreases count,
    {
        if count > 0 {
            Engine::lemma_painting_ignores_later(a, b, (count - 1) as nat, width, len);
        }
    }

    /// Decides whether the loop goes on, and if it does, runs one frame.
    /// The loop ends when the surface has been closed or the escape key is
    /// down; the engine is then left as it was.
    pub fn frame(&mut self, surface_open: bool, escape_down: bool, keys: &[Key]) -> (ran: bool)
        requires
            old(self).wf(),
        ensures
            ran == (surface_open && !escape_down),
            !ran ==> *final(self) == *old(self),
            ran ==> Engine::frame_ran(old(self), final(self), keys@),
    {
        if surface_open && !escape_down {
            self.update(keys);
            true
        } else {
            false
        }
    }

    /// How the engine after a frame relates to the engine before it.
    pub open spec fn frame_ran(before: &Engine, after: &Engine, keys: Seq<Key>) -> bool {
        &&& after.wf()
        &&& after.viewport() == before.viewport()
        &&& after.bodies().len() == before.bodies().len()
        &&& forall|i: int|
            0 <= i < before.bodies().len() ==> same_body(
                &before.bodies()[i],
                #[trigger] &after.bodies()[i],
            )
        &&& forall|i: int|
            0 <= i < before.bodies().len() ==> (#[trigger] after.bodies()[i]).state()
                == after_frame(&before.bodies()[i], before.viewport(), keys)
        &&& after.pixels() == painting(
            after.bodies(),
            after.bodies().len(),
            after.viewport().width as int,
            after.pixels().len(),
        )
    }

    /// Lets gravity and then the air act on the body's velocity for one step.
    pub fn calc_velocities(object: &mut Box<dyn GameObject>)
        ensures
            final(object).state().velocities == integrate_velocity(
                old(object).state().velocities,
                old(object).spec_weight_factor(),
            ),
            final(object).state().coords == old(object).state().coords,
            final(object).state().object_info == old(object).state().object_info,
            same_body(old(object), final(object)),
    {
        let weight = object.weight_factor();
        let common = object.common();
        let mut velocities = common.velocities;

        let gravity = Scalar::from_micro(GRAVITY).times(weight).times(Scalar::from_micro(DT));
        velocities.y = velocities.y.plus(gravity);

        let drag = Scalar::one().minus(
            Scalar::from_micro(AIR_RESISTANCE_FACTOR).times(Scalar::from_micro(DT)),
        );
        velocities.x = velocities.x.times(drag);
        velocities.y = velocities.y.times(drag);

        common.velocities = velocities;
    }

    /// Moves the body by its velocity for one step.
    pub fn apply_velocities(object: &mut Box<dyn GameObject>)
        ensures
            final(object).state().coords == integrate_position(
                old(object).state().coords,
                old(object).state().velocities,
            ),
            final(object).state().velocities == old(object).state().velocities,
            final(object).state().object_info == old(object).state().object_info,
            same_body(old(object), final(object)),
    {
        let common = object.common();
        let coords = common.coords;
        let velocities = common.velocities;
        common.coords = XYPair { x: coords.x.plus(velocities.x), y: coords.y.plus(velocities.y) };
    }

    /// Tells the body the size of the viewport.
    pub fn update_object_info(window_size: &WindowSize, object: &mut Box<dyn GameObject>)
        ensures
            final(object).state().object_info == Some(ObjectInfo { window_size: *window_size }),
            final(object).state().coords == old(object).state().coords,
            final(object).state().velocities == old(object).state().velocities,
            same_body(old(object), final(object)),
    {
        object.common().object_info = Some(ObjectInfo { window_size: *window_size });
    }

    /// Pushes the body back inside the viewport where it has crossed an edge,
    /// and reverses its velocity there.
    pub fn collision_checks(window_size: &WindowSize, object: &mut Box<dyn GameObject>)
        ensures
            final(object).state() == resolve_collisions(
                old(object).state(),
                old(object).spec_collision_shape(),
                old(object).spec_bounciness(),
                *window_size,
            ),
            same_body(old(object), final(object)),
    {
        match object.collision_shape() {
            CollisionShape::Circle(radius) => {
                let bounciness = object.bounciness();
                let common = object.common();
                let mut coords = common.coords;
                let mut velocities = common.velocities;
                let diameter = Scalar::from_micro(TWO).times(radius);
                let width = Scalar::from_whole(window_size.width);
                let height = Scalar::from_whole(window_size.height);
                let zero = Scalar::zero();

                let left = coords.x.is_at_most(zero);
                let right = coords.x.plus(diameter).is_above(width);
                let top = coords.y.minus(diameter).is_below(zero);
                let on_ground = coords.y.plus(diameter).is_above(height);

                // x axis
                if left {
                    coords.x = zero;
                    velocities.x = velocities.x.negated().times(bounciness);
                }
                if right {
                    coords.x = width.minus(diameter);
                    velocities.x = velocities.x.negated().times(bounciness);
                }

                // y axis
                if top {
                    coords.y = diameter;
                    velocities.y = velocities.y.negated().times(bounciness);
                }
                if on_ground {
                    coords.y = height.minus(diameter);
                    velocities.y = velocities.y.negated().times(bounciness);

                    // a body that only rolls on the ground is slowed by it
                    if velocities.y.magnitude().is_at_most(Scalar::one()) {
                        velocities.x = velocities.x.minus(
                            velocities.x.times(Scalar::from_micro(GROUND_DRAG_FACTOR)),
                        );
                    }
                }

                common.coords = coords;
                common.velocities = velocities;
            },
        }
    }

    /// Paints `raster_vecs` into the buffer of `buffer_height` rows of
    /// `buffer_width` cells, its top-left corner at the cell that holds
    /// `coords`. Transparent cells and cells that fall outside the buffer
    /// are skipped.
    pub fn draw_at(
        buffer: &mut Vec<u32>,
        buffer_width: usize,
        buffer_height: usize,
        raster_vecs: Vec<Vec<u32>>,
        coords: &XYPair,
    )
        requires
            old(buffer).len() == buffer_width * buffer_height,
        ensures
            final(buffer)@ == composited(
                old(buffer)@,
                buffer_width as int,
                grid_of(raster_vecs),
                coords.x.spec_floor(),
                coords.y.spec_floor(),
            ),
    {
        let left: i64 = coords.x.floor();
        let top: i64 = coords.y.floor();
        let ghost before = buffer@;
        let ghost raster = grid_of(raster_vecs);
        let ghost width = buffer_width as int;
        let ghost height = buffer_height as int;
        let rows: usize = raster_vecs.len();
        let mut dy: usize = 0;
        assert(buffer@ =~= partly_composited(before, width, raster, left as int, top as int, 0, 0));
        while dy < rows
            invariant
                dy <= rows,
                rows == raster_vecs.len(),
                raster == grid_of(raster_vecs),
                width == buffer_width,
                height == buffer_height,
                before.len() == width * height,
                buffer.len() == before.len(),
                buffer@ == partly_composited(
                    before,
                    width,
                    raster,
                    left as int,
                    top as int,
                    dy as int,
                    0,
                ),
            decreases rows - dy,
        {
            let row = &raster_vecs[dy];
            let cols: usize = row.len();
            let y: i128 = top as i128 + dy as i128;
            assert(raster[dy as int] == row@);
            let mut dx: usize = 0;
            while dx < cols
                invariant
                    dx <= cols,
                    dy < rows,
                    cols == row.len(),
                    raster[dy as int] == row@,
                    rows == raster.len(),
                    y == top + dy,
                    width == buffer_width,
                    height == buffer_height,
                    before.len() == width * height,
                    buffer.len() == before.len(),
                    buffer@ == partly_composited(
                        before,
                        width,
                        raster,
                        left as int,
                        top as int,
                        dy as int,
                        dx as int,
                    ),
                decreases cols - dx,
            {
                let x: i128 = left as i128 + dx as i128;
                let pixel: u32 = row[dx];
                let ghost earlier = buffer@;
                if 0 <= x && x < buffer_width as i128 && 0 <= y && y < buffer_height as i128
                    && pixel != 0 {
                    proof {
                        lemma_index_of_cell(x as int, y as int, width, height);
                    }
                    let index: usize = (y as usize) * buffer_width + (x as usize);
                    buffer.set(index, pixel);
                }
                assert(buffer@ =~= partly_composited(
                    before,
                    width,
                    raster,
                    left as int,
                    top as int,
                    dy as int,
                    dx + 1,
                )) by {
                    assert forall|i: int| 0 <= i < before.len() implies buffer@[i]
                        == partly_composited(
                        before,
                        width,
                        raster,
                        left as int,
                        top as int,
                        dy as int,
                        dx + 1,
                    )[i] by {
                        lemma_cell_of_index(i, width, height);
                        if 0 <= x < width && 0 <= y < height {
                            lemma_index_of_cell(x as int, y as int, width, height);
                        }
                    }
                }
                dx = dx + 1;
            }
            assert(buffer@ =~= partly_composited(
                before,
                width,
                raster,
                left as int,
                top as int,
                dy + 1,
                0,
            ));
            dy = dy + 1;
        }
        assert(buffer@ =~= composited(before, width, raster, left as int, top as int));
    }
}

} // verus!
