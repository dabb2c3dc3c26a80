//! The physics world as this crate keeps it: the boundary walls, the round
//! bodies with the positions that the integrator last reported, and the forces
//! applied since the last tick.
//!
//! Integration, collision and constraint solving are the engine's work and
//! happen outside. Once per frame the host hands the applied forces to its
//! engine, advances it by one tick and reports the new positions to
//! [`PhysicsStruct::step`].

use crate::geometry::{Force, Vector2};
use vstd::prelude::*;

verus! {

/// Half the thickness of every boundary wall.
pub const WALL_HALF_THICKNESS: i32 = 1;

/// The linear damping that every ball is created with. It keeps a body from
/// drifting without end when no force acts on it.
pub const LINEAR_DAMPING: i32 = 1;

/// Names one ball of one world. A handle means nothing to any other world.
#[derive(Clone, Copy, Debug, PartialEq, Eq, Structural, Hash)]
pub struct BodyHandle {
    index: usize,
}

impl View for BodyHandle {
    type V = usize;

    /// The place of the ball in the order of creation, counting from zero.
    /// It serves as the identity of whatever owns the ball.
    closed spec fn view(&self) -> usize {
        self.index
    }
}

impl BodyHandle {
    /// The handle of the ball at the given place.
    pub closed spec fn at(index: usize) -> BodyHandle {
        BodyHandle { index }
    }

    /// The place of the ball in the order of creation, counting from zero.
    pub fn index(&self) -> (i: usize)
        ensures
            i == self@,
    {
        self.index
    }

    /// The handle of a place names that place, and no other handle does.
    pub proof fn lemma_view_at(index: usize)
        ensures
            BodyHandle::at(index)@ == index,
            forall|handle: BodyHandle| #[trigger] handle@ == index ==> handle == BodyHandle::at(index),
    {
    }
}

/// Why the world refused a request.
#[derive(Clone, Copy, Debug, PartialEq, Eq, Structural)]
pub enum PhysicsError {
    /// The handle names no ball of this world.
    ObjectNotFound,
    /// A ball was asked for with a radius that is not positive.
    NonPositiveRadius,
    /// A ball was asked for with a density that is not positive.
    NonPositiveDensity,
    /// A tick reported a number of positions other than the number of balls.
    TickMismatch,
}

/// A static, axis-aligned box that no force displaces.
#[derive(Clone, Copy, Debug, PartialEq, Eq, Structural)]
pub struct Wall {
    pub center: Vector2,
    pub half_width: i32,
    pub half_height: i32,
}

impl Wall {
    /// The point `(x, y)` lies in the box, rim included.
    pub open spec fn covers(self, x: int, y: int) -> bool {
        &&& self.center.x - self.half_width <= x <= self.center.x + self.half_width
        &&& self.center.y - self.half_height <= y <= self.center.y + self.half_height
    }
}

/// A dynamic round body.
#[derive(Clone, Copy, Debug, PartialEq, Eq, Structural)]
pub struct Ball {
    /// Where the integrator last put the body.
    pub position: Vector2,
    pub radius: i32,
    /// In ten-thousandths of the engine's unit of density.
    pub density: i32,
    /// How strongly the body's own motion is braked.
    pub linear_damping: i32,
}

impl Ball {
    /// A ball as the world makes it: with the one damping that every ball
    /// has.
    pub open spec fn made(position: Vector2, radius: i32, density: i32) -> Ball {
        Ball { position, radius, density, linear_damping: LINEAR_DAMPING }
    }
}

/// How an applied force acts.
#[derive(Clone, Copy, Debug, PartialEq, Eq, Structural)]
pub enum ForceType {
    /// A continuous force, which acts over the length of the next tick.
    Force,
    /// An impulse, which changes the momentum at once.
    Impulse,
}

/// A force or an impulse on the centre of one ball, with no torque.
#[derive(Clone, Copy, Debug, PartialEq, Eq, Structural)]
pub struct AppliedForce {
    pub handle: BodyHandle,
    pub force: Force,
    pub kind: ForceType,
}

/// The four walls around a world of the given width and height, in the order
/// of their creation: ground, ceiling, left, right.
pub open spec fn boundary(dims: (i32, i32)) -> Seq<Wall> {
    seq![
        Wall {
            center: Vector2 { x: 0, y: dims.1 },
            half_width: dims.0,
            half_height: WALL_HALF_THICKNESS,
        },
        Wall {
            center: Vector2 { x: 0, y: 0 },
            half_width: dims.0,
            half_height: WALL_HALF_THICKNESS,
        },
        Wall {
            center: Vector2 { x: 0, y: 0 },
            half_width: WALL_HALF_THICKNESS,
            half_height: dims.1,
        },
        Wall {
            center: Vector2 { x: dims.0, y: 0 },
            half_width: WALL_HALF_THICKNESS,
            half_height: dims.1,
        },
    ]
}

/// The walls close the world in: every point on the rim of the rectangle from
/// the origin to `dims` lies in one of them.
pub proof fn lemma_boundary_encloses(dims: (i32, i32), x: int, y: int)
    requires
        0 <= x <= dims.0,
        0 <= y <= dims.1,
        x == 0 || x == dims.0 || y == 0 || y == dims.1,
    ensures
        exists|k: int| 0 <= k < boundary(dims).len() && (#[trigger] boundary(dims)[k]).covers(x, y),
{
    let walls = boundary(dims);
    if y == dims.1 {
        assert(walls[0].covers(x, y));
    } else if y == 0 {
        assert(walls[1].covers(x, y));
    } else if x == 0 {
        assert(walls[2].covers(x, y));
    } else {
        assert(walls[3].covers(x, y));
    }
}

/// The sum of the continuous forces in `forces` that act on the ball of
/// `handle`, as a pair of its horizontal and its vertical part.
pub open spec fn total_force(forces: Seq<AppliedForce>, handle: BodyHandle) -> (int, int)
    decreases forces.len(),
{
    if forces.len() == 0 {
        (0, 0)
    } else {
        let rest = total_force(forces.drop_last(), handle);
        if forces.last().handle == handle && forces.last().kind == ForceType::Force {
            (rest.0 + forces.last().force.x, rest.1 + forces.last().force.y)
        } else {
            rest
        }
    }
}

/// Forces on other balls add nothing to the sum for `handle`.
pub proof fn lemma_total_force_ignores_others(
    before: Seq<AppliedForce>,
    more: Seq<AppliedForce>,
    handle: BodyHandle,
)
    requires
        forall|k: int| 0 <= k < more.len() ==> (#[trigger] more[k]).handle != handle,
    ensures
        total_force(before + more, handle) == total_force(before, handle),
    decreases more.len(),
{
    if more.len() == 0 {
        assert(before + more =~= before);
    } else {
        let front = more.drop_last();
        lemma_total_force_ignores_others(before, front, handle);
        assert((before + more).drop_last() =~= before + front);
    }
}

/// What a world holds, as plain mathematics.
pub struct World {
    pub dims: (i32, i32),
    /// The acceleration that acts on every ball at all times.
    pub gravity: Vector2,
    pub walls: Seq<Wall>,
    pub balls: Seq<Ball>,
    /// The forces applied since the last tick, oldest first.
    pub forces: Seq<AppliedForce>,
}

impl World {
    /// The handle names a ball of this world.
    pub open spec fn has(self, handle: BodyHandle) -> bool {
        handle@ < self.balls.len()
    }

    /// Where the ball that `handle` names is.
    pub open spec fn position_of(self, handle: BodyHandle) -> Vector2
        recommends
            self.has(handle),
    {
        self.balls[handle@ as int].position
    }

    /// The walls are those of the world's dimensions, every ball has a
    /// positive radius and density and the common damping, and every applied
    /// force names a ball.
    pub open spec fn valid(self) -> bool {
        &&& self.walls == boundary(self.dims)
        &&& forall|i: int|
            0 <= i < self.balls.len() ==> (#[trigger] self.balls[i]).radius > 0
                && self.balls[i].density > 0 && self.balls[i].linear_damping == LINEAR_DAMPING
        &&& forall|k: int|
            0 <= k < self.forces.len() ==> self.has((#[trigger] self.forces[k]).handle)
    }

    /// The sum of the forces applied to the ball since the last tick.
    pub open spec fn net_force(self, handle: BodyHandle) -> (int, int) {
        total_force(self.forces, handle)
    }

    /// The world with one more ball.
    pub open spec fn with_ball(self, ball: Ball) -> World {
        World { balls: self.balls.push(ball), ..self }
    }

    /// The world with one more continuous force applied.
    pub open spec fn with_force(self, handle: BodyHandle, force: Force) -> World {
        World {
            forces: self.forces.push(AppliedForce { handle, force, kind: ForceType::Force }),
            ..self
        }
    }

    /// The world with one more impulse applied.
    pub open spec fn with_impulse(self, handle: BodyHandle, impulse: Force) -> World {
        World {
            forces: self.forces.push(
                AppliedForce { handle, force: impulse, kind: ForceType::Impulse },
            ),
            ..self
        }
    }

    /// The world after one tick of the integrator: the applied forces are
    /// spent and every ball stands where the integrator put it.
    pub open spec fn after_tick(self, positions: Seq<Vector2>) -> World
        recommends
            positions.len() == self.balls.len(),
    {
        World {
            balls: Seq::new(
                self.balls.len(),
                |i: int| Ball { position: positions[i], ..self.balls[i] },
            ),
            forces: Seq::empty(),
            ..self
        }
    }
}

/// The world: boundary walls made once, balls, and the forces applied since
/// the last tick.
pub struct PhysicsStruct {
    dims: (i32, i32),
    gravity: Vector2,
    walls: Vec<Wall>,
    balls: Vec<Ball>,
    forces: Vec<AppliedForce>,
}

impl View for PhysicsStruct {
    type V = World;

    closed spec fn view(&self) -> World {
        World {
            dims: self.dims,
            gravity: self.gravity,
            walls: self.walls@,
            balls: self.balls@,
            forces: self.forces@,
        }
    }
}

impl PhysicsStruct {
    /// The invariant of a world; see [`World::valid`].
    pub open spec fn wf(&self) -> bool {
        self@.valid()
    }

    /// An empty world of the given width and height, closed in by its four
    /// walls, with no gravity.
    pub fn new(dims: (i32, i32)) -> (world: PhysicsStruct)
        ensures
            world.wf(),
            world@ == (World {
                dims,
                gravity: Vector2 { x: 0, y: 0 },
                walls: boundary(dims),
                balls: Seq::empty(),
                forces: Seq::empty(),
            }),
    {
        PhysicsStruct::with_gravity(dims, Vector2 { x: 0, y: 0 })
    }

    /// An empty world of the given width and height, closed in by its four
    /// walls, in which `gravity` pulls at every ball.
    pub fn with_gravity(dims: (i32, i32), gravity: Vector2) -> (world: PhysicsStruct)
        ensures
            world.wf(),
            world@ == (World {
                dims,
                gravity,
                walls: boundary(dims),
                balls: Seq::empty(),
                forces: Seq::empty(),
            }),
    {
        let mut walls: Vec<Wall> = Vec::new();
        PhysicsStruct::initialize_walls(&mut walls, dims);
        PhysicsStruct { dims, gravity, walls, balls: Vec::new(), forces: Vec::new() }
    }

    /// Puts a ball of the given radius and density at `start_pos` and returns
    /// its handle. A radius or a density that is not positive is refused, and
    /// the world stays as it was.
    pub fn create_ball(&mut self, radius: i32, start_pos: Vector2, density: i32) -> (made: Result<
        BodyHandle,
        PhysicsError,
    >)
        requires
            old(self).wf(),
        ensures
            final(self).wf(),
            radius <= 0 ==> made == Err::<BodyHandle, PhysicsError>(PhysicsError::NonPositiveRadius),
            radius > 0 && density <= 0 ==> made == Err::<BodyHandle, PhysicsError>(
                PhysicsError::NonPositiveDensity,
            ),
            made is Err ==> final(self)@ == old(self)@,
            radius > 0 && density > 0 ==> made == Ok::<BodyHandle, PhysicsError>(
                BodyHandle::at(old(self)@.balls.len() as usize),
            )
                && final(self)@ == old(self)@.with_ball(
                Ball::made(start_pos, radius, density),
            ),
    {
        if radius <= 0 {
            return Err(PhysicsError::NonPositiveRadius);
        }
        if density <= 0 {
            return Err(PhysicsError::NonPositiveDensity);
        }
        let index = self.balls.len();
        self.balls.push(
            Ball { position: start_pos, radius, density, linear_damping: LINEAR_DAMPING },
        );
        assert(self@.balls == old(self)@.balls.push(Ball::made(start_pos, radius, density)));
        assert(self@.forces == old(self)@.forces);
        Ok(BodyHandle { index })
    }

    /// Applies `force_vector` to the centre of the ball, to act until the next
    /// tick. A handle that names no ball is an error and changes nothing.
    pub fn apply_force(&mut self, object_handle: BodyHandle, force_vector: Force) -> (done: Result<
        (),
        PhysicsError,
    >)
        requires
            old(self).wf(),
        ensures
            final(self).wf(),
            old(self)@.has(object_handle) ==> done is Ok && final(self)@ == old(self)@.with_force(
                object_handle,
                force_vector,
            ),
            !old(self)@.has(object_handle) ==> done == Err::<(), PhysicsError>(
                PhysicsError::ObjectNotFound,
            ) && final(self)@ == old(self)@,
    {
        if object_handle.index >= self.balls.len() {
            return Err(PhysicsError::ObjectNotFound);
        }
        self.forces.push(
            AppliedForce { handle: object_handle, force: force_vector, kind: ForceType::Force },
        );
        assert(self@.balls == old(self)@.balls);
        assert(self@.forces == old(self)@.with_force(object_handle, force_vector).forces);
        Ok(())
    }

    /// Applies `impulse` to the centre of the ball: a push that acts at once.
    /// A handle that names no ball is an error and changes nothing.
    pub fn apply_impulse(&mut self, object_handle: BodyHandle, impulse: Force) -> (done: Result<
        (),
        PhysicsError,
    >)
        requires
            old(self).wf(),
        ensures
            final(self).wf(),
            old(self)@.has(object_handle) ==> done is Ok && final(self)@ == old(self)@.with_impulse(
                object_handle,
                impulse,
            ),
            !old(self)@.has(object_handle) ==> done == Err::<(), PhysicsError>(
                PhysicsError::ObjectNotFound,
            ) && final(self)@ == old(self)@,
    {
        if object_handle.index >= self.balls.len() {
            return Err(PhysicsError::ObjectNotFound);
        }
        self.forces.push(
            AppliedForce { handle: object_handle, force: impulse, kind: ForceType::Impulse },
        );
        assert(self@.balls == old(self)@.balls);
        assert(self@.forces == old(self)@.with_impulse(object_handle, impulse).forces);
        Ok(())
    }

    /// Where the ball is now.
    pub fn get_pos_of(&self, object_handle: BodyHandle) -> (pos: Result<Vector2, PhysicsError>)
        ensures
            self@.has(object_handle) ==> pos == Ok::<Vector2, PhysicsError>(
                self@.position_of(object_handle),
            ),
            !self@.has(object_handle) ==> pos == Err::<Vector2, PhysicsError>(
                PhysicsError::ObjectNotFound,
            ),
    {
        if object_handle.index >= self.balls.len() {
            return Err(PhysicsError::ObjectNotFound);
        }
        Ok(self.balls[object_handle.index].position)
    }

    /// Whether `query` lies strictly closer to the ball's centre than
    /// `radius`. The radius is the caller's, not the body's own.
    pub fn floater_contains(&self, object_handle: BodyHandle, radius: i32, query: Vector2) -> (hit:
        Result<bool, PhysicsError>)
        ensures
            self@.has(object_handle) ==> hit == Ok::<bool, PhysicsError>(
                query.within(self@.position_of(object_handle), radius as int),
            ),
            !self@.has(object_handle) ==> hit == Err::<bool, PhysicsError>(
                PhysicsError::ObjectNotFound,
            ),
    {
        if object_handle.index >= self.balls.len() {
            return Err(PhysicsError::ObjectNotFound);
        }
        let pos = self.balls[object_handle.index].position;
        Ok(query.is_within(pos, radius))
    }

    /// Closes one tick. `positions` holds, ball by ball in the order of
    /// creation, where the integrator put each body. The forces applied since
    /// the last tick are spent. A report of the wrong length is refused and
    /// changes nothing.
    pub fn step(&mut self, positions: &Vec<Vector2>) -> (done: Result<(), PhysicsError>)
        requires
            old(self).wf(),
        ensures
            final(self).wf(),
            positions@.len() == old(self)@.balls.len() ==> done is Ok && final(self)@ == old(
                self,
            )@.after_tick(positions@),
            positions@.len() != old(self)@.balls.len() ==> done == Err::<(), PhysicsError>(
                PhysicsError::TickMismatch,
            ) && final(self)@ == old(self)@,
    {
        let n = self.balls.len();
        if positions.len() != n {
            return Err(PhysicsError::TickMismatch);
        }
        let mut moved: Vec<Ball> = Vec::new();
        let mut i: usize = 0;
        while i < n
            invariant
                i <= n,
                n == self.balls.len(),
                n == positions.len(),
                moved.len() == i,
                forall|j: int|
                    0 <= j < i ==> #[trigger] moved[j] == (Ball {
                        position: positions[j],
                        ..self.balls[j]
                    }),
            decreases n - i,
        {
            let ball = self.balls[i];
            moved.push(
                Ball {
                    position: positions[i],
                    radius: ball.radius,
                    density: ball.density,
                    linear_damping: ball.linear_damping,
                },
            );
            i = i + 1;
        }
        self.balls = moved;
        self.forces = Vec::new();
        assert(self@.balls =~= old(self)@.after_tick(positions@).balls);
        assert(self@.forces =~= old(self)@.after_tick(positions@).forces);
        Ok(())
    }

    /// The width and height that the world was made with.
    pub fn dims(&self) -> (dims: (i32, i32))
        ensures
            dims == self@.dims,
    {
        self.dims
    }

    /// The gravity that the world was made with.
    pub fn gravity(&self) -> (gravity: Vector2)
        ensures
            gravity == self@.gravity,
    {
        self.gravity
    }

    /// The boundary walls.
    pub fn walls(&self) -> (walls: &Vec<Wall>)
        ensures
            walls@ == self@.walls,
    {
        &self.walls
    }

    /// The balls, in the order of creation.
    pub fn balls(&self) -> (balls: &Vec<Ball>)
        ensures
            balls@ == self@.balls,
    {
        &self.balls
    }

    /// The forces applied since the last tick, oldest first.
    pub fn forces(&self) -> (forces: &Vec<AppliedForce>)
        ensures
            forces@ == self@.forces,
    {
        &self.forces
    }

    /// Makes the four boundary walls of a world of the given dimensions:
    /// ground and ceiling as wide as the world, left and right wall as high.
    fn initialize_walls(walls: &mut Vec<Wall>, dims: (i32, i32))
        ensures
            final(walls)@ == old(walls)@ + boundary(dims),
    {
        let win_width = dims.0;
        let win_height = dims.1;

        walls.push(
            Wall {
                center: Vector2 { x: 0, y: win_height },
                half_width: win_width,
                half_height: WALL_HALF_THICKNESS,
            },
        );
        walls.push(
            Wall {
                center: Vector2 { x: 0, y: 0 },
                half_width: win_width,
                half_height: WALL_HALF_THICKNESS,
            },
        );
        walls.push(
            Wall {
                center: Vector2 { x: 0, y: 0 },
                half_width: WALL_HALF_THICKNESS,
                half_height: win_height,
            },
        );
        walls.push(
            Wall {
                center: Vector2 { x: win_width, y: 0 },
                half_width: WALL_HALF_THICKNESS,
                half_height: win_height,
            },
        );
        assert(walls@ =~= old(walls)@ + boundary(dims));
    }
}

} // verus!
