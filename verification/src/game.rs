//! The simulation as a whole: the world, the floaters, the beach ball and the
//! selection, with the two pointer events and the steering of each frame.
//!
//! A frame goes in two calls. [`MyGame::update`] computes the steering forces
//! and applies them to the world. The host hands them to its engine, advances
//! it by one tick and reports where the bodies went to [`MyGame::step`].

use crate::floater::{
    BeachBall, BeachBallView, Color, Floater, FloaterView, PhysicsBall, BEACH_BALL_SIZE,
    FLOATER_SIZE, GREEN,
};
use crate::geometry::Vector2;
use crate::physics::{
    boundary, AppliedForce, Ball, BodyHandle, ForceType, PhysicsError, PhysicsStruct, World,
};
use crate::random::gen_range;
use crate::selection::Selection;
use rand::rngs::ThreadRng;
use vstd::pervasive::unreached;
use vstd::prelude::*;

verus! {

/// The width of the world.
pub const WIN_WIDTH: i32 = 800;

/// The height of the world.
pub const WIN_HEIGHT: i32 = 600;

/// How many floaters a new game holds.
pub const FLOATER_CNT: usize = 15;

/// The density of a floater, in ten-thousandths of the engine's unit.
pub const FLOATER_DENSITY: i32 = 30;

/// The density of the beach ball, in ten-thousandths of the engine's unit.
pub const BEACH_BALL_DENSITY: i32 = 1;

/// A pointer button.
#[derive(Clone, Copy, Debug, PartialEq, Eq, Structural)]
pub enum MouseButton {
    /// Selects the floaters under the pointer.
    Left,
    /// Commands the selected floaters to the pointer.
    Right,
    Middle,
    Other(u8),
}

/// A filled circle for the renderer to draw.
#[derive(Clone, Copy, Debug, PartialEq, Eq, Structural)]
pub struct Circle {
    pub center: Vector2,
    pub radius: i32,
    pub color: Color,
}

/// What a game holds, as plain mathematics.
pub struct Game {
    pub world: World,
    pub floaters: Seq<FloaterView>,
    /// The identities of the floaters that the user has marked.
    pub selected: Set<usize>,
    pub beach_ball: BeachBallView,
}

/// The point lies in the window, its left and upper edge included.
pub open spec fn in_window(p: Vector2) -> bool {
    0 <= p.x < WIN_WIDTH && 0 <= p.y < WIN_HEIGHT
}

/// The handle and the target of every floater that has a target, in the order
/// of the floaters.
pub open spec fn pursuits(floaters: Seq<FloaterView>) -> Seq<(BodyHandle, Vector2)>
    decreases floaters.len(),
{
    if floaters.len() == 0 {
        Seq::empty()
    } else {
        let rest = pursuits(floaters.drop_last());
        match floaters.last().target {
            Some(target) => rest.push((floaters.last().handle, target)),
            None => rest,
        }
    }
}

/// The force that steers one body toward its target: the target less the
/// body's position, as it is.
pub open spec fn steering_force(world: World, pursuit: (BodyHandle, Vector2)) -> AppliedForce {
    AppliedForce {
        handle: pursuit.0,
        force: world.position_of(pursuit.0).pull_toward(pursuit.1),
        kind: ForceType::Force,
    }
}

/// The forces that one frame applies: one for each floater that has a target,
/// in the order of the floaters, and none for the others.
pub open spec fn steering(world: World, floaters: Seq<FloaterView>) -> Seq<AppliedForce> {
    pursuits(floaters).map_values(|pursuit: (BodyHandle, Vector2)| steering_force(world, pursuit))
}

/// Every pursuit is that of a floater: its handle and its target are those of
/// one floater that has a target.
pub proof fn lemma_pursuits_are_floaters(floaters: Seq<FloaterView>)
    ensures
        pursuits(floaters).len() <= floaters.len(),
        forall|k: int|
            0 <= k < pursuits(floaters).len() ==> exists|i: int|
                0 <= i < floaters.len() && (#[trigger] floaters[i]).handle == pursuits(
                    floaters,
                )[k].0 && floaters[i].target == Some((#[trigger] pursuits(floaters)[k]).1),
    decreases floaters.len(),
{
    if floaters.len() > 0 {
        let front = floaters.drop_last();
        lemma_pursuits_are_floaters(front);
        assert forall|k: int| 0 <= k < pursuits(floaters).len() implies exists|i: int|
            0 <= i < floaters.len() && (#[trigger] floaters[i]).handle == pursuits(floaters)[k].0
                && floaters[i].target == Some((#[trigger] pursuits(floaters)[k]).1) by {
            if k < pursuits(front).len() {
                let i = choose|i: int|
                    0 <= i < front.len() && (#[trigger] front[i]).handle == pursuits(front)[k].0
                        && front[i].target == Some(pursuits(front)[k].1);
                assert(floaters[i] == front[i]);
            } else {
                assert(floaters[floaters.len() - 1] == floaters.last());
            }
        }
    }
}

/// A change that keeps the number of balls, the handles of the floaters and of
/// the beach ball, and marks no stranger, keeps a game valid.
pub proof fn lemma_same_owners_stay_valid(before: Game, after: Game)
    requires
        before.valid(),
        after.world.valid(),
        after.world.balls.len() == before.world.balls.len(),
        after.floaters.len() == before.floaters.len(),
        forall|i: int|
            0 <= i < before.floaters.len() ==> (#[trigger] after.floaters[i]).handle
                == before.floaters[i].handle,
        after.beach_ball.handle == before.beach_ball.handle,
        after.selected.finite(),
        forall|id: usize| after.selected.contains(id) ==> before.owns(id),
    ensures
        after.valid(),
{
    assert forall|i: int| 0 <= i < after.floaters.len() implies after.world.has(
        (#[trigger] after.floaters[i]).handle,
    ) by {
        assert(before.world.has(before.floaters[i].handle));
    }
    assert forall|i: int, j: int| 0 <= i < j < after.floaters.len() implies (
    #[trigger] after.floaters[i]).handle@ != (#[trigger] after.floaters[j]).handle@ by {
        assert(before.floaters[i].handle@ != before.floaters[j].handle@);
    }
    assert forall|i: int| 0 <= i < after.floaters.len() implies (
    #[trigger] after.floaters[i]).handle@ != after.beach_ball.handle@ by {
        assert(before.floaters[i].handle@ != before.beach_ball.handle@);
    }
    assert forall|id: usize| after.selected.contains(id) implies after.owns(id) by {
        assert(before.owns(id));
        let i = choose|i: int|
            0 <= i < before.floaters.len() && (#[trigger] before.floaters[i]).handle@ == id;
        assert(after.floaters[i].handle@ == id);
    }
}

impl Game {
    /// Some floater has the identity `id`.
    pub open spec fn owns(self, id: usize) -> bool {
        exists|i: int| 0 <= i < self.floaters.len() && (#[trigger] self.floaters[i]).handle@ == id
    }

    /// The world is valid, every floater and the beach ball own a ball of it,
    /// no two of them the same one, and every marked identity is a floater's.
    pub open spec fn valid(self) -> bool {
        &&& self.world.valid()
        &&& forall|i: int|
            0 <= i < self.floaters.len() ==> self.world.has((#[trigger] self.floaters[i]).handle)
        &&& forall|i: int, j: int|
            0 <= i < j < self.floaters.len() ==> (#[trigger] self.floaters[i]).handle@ != (
            #[trigger] self.floaters[j]).handle@
        &&& self.world.has(self.beach_ball.handle)
        &&& forall|i: int|
            0 <= i < self.floaters.len() ==> (#[trigger] self.floaters[i]).handle@
                != self.beach_ball.handle@
        &&& self.selected.finite()
        &&& forall|id: usize| self.selected.contains(id) ==> self.owns(id)
    }

    /// Where floater `i` is.
    pub open spec fn position(self, i: int) -> Vector2
        recommends
            0 <= i < self.floaters.len(),
    {
        self.world.position_of(self.floaters[i].handle)
    }

    /// Where the floaters are, one by one.
    pub open spec fn positions(self) -> Seq<Vector2> {
        Seq::new(self.floaters.len(), |i: int| self.position(i))
    }

    /// A click at `p` hits floater `i`: the point lies strictly inside the
    /// disc that the floater is drawn as.
    pub open spec fn hit(self, i: int, p: Vector2) -> bool
        recommends
            0 <= i < self.floaters.len(),
    {
        p.within(self.position(i), FLOATER_SIZE as int)
    }

    /// The identities of those among the first `n` floaters that a click at
    /// `p` hits.
    pub open spec fn hits_among(self, p: Vector2, n: int) -> Set<usize> {
        Set::new(
            |id: usize|
                exists|i: int|
                    0 <= i < n && i < self.floaters.len() && (#[trigger] self.floaters[i]).handle@
                        == id && self.hit(i, p),
        )
    }

    /// The identities of the floaters that a click at `p` hits.
    pub open spec fn hits(self, p: Vector2) -> Set<usize> {
        self.hits_among(p, self.floaters.len() as int)
    }

    /// The game after a select click at `p`: what the click hits joins the
    /// selection.
    pub open spec fn select(self, p: Vector2) -> Game {
        Game { selected: self.selected.union(self.hits(p)), ..self }
    }

    /// Floater `i` after a command click at `p`: it pursues `p` if it was
    /// selected, and is unchanged if not.
    pub open spec fn commanded(self, i: int, p: Vector2) -> FloaterView
        recommends
            0 <= i < self.floaters.len(),
    {
        if self.selected.contains(self.floaters[i].handle@) {
            self.floaters[i].with_target(p)
        } else {
            self.floaters[i]
        }
    }

    /// The game after a command click at `p`: every selected floater pursues
    /// `p`, and nothing is selected any more.
    pub open spec fn command(self, p: Vector2) -> Game {
        Game {
            floaters: Seq::new(self.floaters.len(), |i: int| self.commanded(i, p)),
            selected: Set::empty(),
            ..self
        }
    }

    /// The game after a press of `button` at `p`.
    pub open spec fn pointer_down(self, button: MouseButton, p: Vector2) -> Game {
        match button {
            MouseButton::Left => self.select(p),
            MouseButton::Right => self.command(p),
            _ => self,
        }
    }

    /// The game with the forces that steer its floaters applied to the world,
    /// after those that were applied before.
    pub open spec fn steered(self) -> Game {
        Game {
            world: World {
                forces: self.world.forces + steering(self.world, self.floaters),
                ..self.world
            },
            ..self
        }
    }

    /// The game after one tick of the integrator.
    pub open spec fn ticked(self, positions: Seq<Vector2>) -> Game {
        Game { world: self.world.after_tick(positions), ..self }
    }

    /// The circle that floater `i` is drawn as: green while it is selected,
    /// in its own colour otherwise.
    pub open spec fn shown(self, i: int) -> Circle
        recommends
            0 <= i < self.floaters.len(),
    {
        Circle {
            center: self.position(i),
            radius: FLOATER_SIZE,
            color: if self.selected.contains(self.floaters[i].handle@) {
                Color::Green
            } else {
                self.floaters[i].color
            },
        }
    }

    /// What a frame shows: the floaters in their order, then the beach ball.
    pub open spec fn scene(self) -> Seq<Circle> {
        Seq::new(self.floaters.len(), |i: int| self.shown(i)).push(
            Circle {
                center: self.world.position_of(self.beach_ball.handle),
                radius: BEACH_BALL_SIZE,
                color: self.beach_ball.color,
            },
        )
    }

    /// The game right after its making: a floater at each spawn point, blue and
    /// with no target, then the beach ball in the middle of the window;
    /// nothing selected, no force applied.
    pub open spec fn initial(spawns: Seq<Vector2>) -> Game {
        Game {
            world: World {
                dims: (WIN_WIDTH, WIN_HEIGHT),
                gravity: Vector2 { x: 0, y: 0 },
                walls: boundary((WIN_WIDTH, WIN_HEIGHT)),
                balls: Seq::new(
                    spawns.len(),
                    |i: int| Ball::made(spawns[i], FLOATER_SIZE, FLOATER_DENSITY),
                ).push(
                    Ball::made(
                        Vector2 { x: (WIN_WIDTH / 2) as i32, y: (WIN_HEIGHT / 2) as i32 },
                        BEACH_BALL_SIZE,
                        BEACH_BALL_DENSITY,
                    ),
                ),
                forces: Seq::empty(),
            },
            floaters: Seq::new(
                spawns.len(),
                |i: int| FloaterView::fresh(BodyHandle::at(i as usize)),
            ),
            selected: Set::empty(),
            beach_ball: BeachBallView {
                handle: BodyHandle::at(spawns.len() as usize),
                color: Color::Red,
            },
        }
    }
}

/// The running simulation.
pub struct MyGame {
    physics: PhysicsStruct,
    floaters: Vec<Floater>,
    selected: Selection,
    beach_ball: BeachBall,
}

impl View for MyGame {
    type V = Game;

    closed spec fn view(&self) -> Game {
        Game {
            world: self.physics@,
            floaters: self.floaters@.map_values(|f: Floater| f@),
            selected: self.selected@,
            beach_ball: self.beach_ball@,
        }
    }
}

/// Draws a horizontal coordinate inside the window.
pub fn get_rand_x(rng: &mut ThreadRng) -> (x: i32)
    ensures
        0 <= x < WIN_WIDTH,
{
    gen_range(rng, 0, WIN_WIDTH)
}

/// Draws a vertical coordinate inside the window.
pub fn get_rand_y(rng: &mut ThreadRng) -> (y: i32)
    ensures
        0 <= y < WIN_HEIGHT,
{
    gen_range(rng, 0, WIN_HEIGHT)
}

impl MyGame {
    /// The invariant of a game; see [`Game::valid`].
    pub open spec fn wf(&self) -> bool {
        self@.valid()
    }

    /// A game with a floater at each of the given points and the beach ball in
    /// the middle of the window.
    pub fn with_spawns(spawns: &Vec<Vector2>) -> (game: MyGame)
        ensures
            game.wf(),
            game@ == Game::initial(spawns@),
    {
        let mut physics = PhysicsStruct::new((WIN_WIDTH, WIN_HEIGHT));
        let mut floaters: Vec<Floater> = Vec::new();
        let n = spawns.len();
        let mut i: usize = 0;
        while i < n
            invariant
                i <= n,
                n == spawns.len(),
                physics.wf(),
                physics@.dims == (WIN_WIDTH, WIN_HEIGHT),
                physics@.gravity == (Vector2 { x: 0, y: 0 }),
                physics@.walls == boundary((WIN_WIDTH, WIN_HEIGHT)),
                physics@.forces == Seq::<AppliedForce>::empty(),
                physics@.balls.len() == i,
                floaters.len() == i,
                forall|j: int|
                    0 <= j < i ==> #[trigger] physics@.balls[j] == Ball::made(
                        spawns[j],
                        FLOATER_SIZE,
                        FLOATER_DENSITY,
                    ),
                forall|j: int|
                    0 <= j < i ==> (#[trigger] floaters[j])@ == FloaterView::fresh(
                        BodyHandle::at(j as usize),
                    ),
            decreases n - i,
        {
            let made = physics.create_ball(Floater::size(), spawns[i], FLOATER_DENSITY);
            let handle = match made {
                Ok(handle) => handle,
                Err(_) => unreached(),
            };
            floaters.push(Floater::new(handle));
            i = i + 1;
        }
        let made = physics.create_ball(
            BeachBall::size(),
            Vector2::new(WIN_WIDTH / 2, WIN_HEIGHT / 2),
            BEACH_BALL_DENSITY,
        );
        let beach_ball_handle = match made {
            Ok(handle) => handle,
            Err(_) => unreached(),
        };
        let game = MyGame {
            physics,
            floaters,
            selected: Selection::new(),
            beach_ball: BeachBall::new(beach_ball_handle),
        };
        proof {
            let want = Game::initial(spawns@);
            assert(game@.world.balls =~= want.world.balls);
            assert(game@.floaters =~= want.floaters);
            assert forall|j: int| 0 <= j < game@.floaters.len() implies (
            #[trigger] game@.floaters[j]).handle@ == j by {
                BodyHandle::lemma_view_at(j as usize);
            }
            BodyHandle::lemma_view_at(n);
        }
        game
    }

    /// A new game: fifteen floaters scattered over the window at random, and
    /// the beach ball in its middle.
    pub fn new() -> (game: MyGame)
        ensures
            game.wf(),
            game@.floaters.len() == FLOATER_CNT,
            forall|i: int| 0 <= i < FLOATER_CNT ==> in_window(#[trigger] game@.position(i)),
            game@ == Game::initial(game@.positions()),
    {
        let mut spawns: Vec<Vector2> = Vec::new();
        let mut rng = rand::thread_rng();
        let mut i: usize = 0;
        while i < FLOATER_CNT
            invariant
                i <= FLOATER_CNT,
                spawns.len() == i,
                forall|j: int| 0 <= j < i ==> in_window(#[trigger] spawns[j]),
            decreases FLOATER_CNT - i,
        {
            let x = get_rand_x(&mut rng);
            let y = get_rand_y(&mut rng);
            spawns.push(Vector2::new(x, y));
            i = i + 1;
        }
        let game = MyGame::with_spawns(&spawns);
        proof {
            assert forall|j: int| 0 <= j < FLOATER_CNT implies game@.position(j) == spawns[j] by {
                BodyHandle::lemma_view_at(j as usize);
            }
            assert(game@.positions() =~= spawns@);
        }
        game
    }

    /// A select click at `clicked_pos`: every floater that the click hits
    /// joins the selection. One that was selected already stays so, and a
    /// click that hits nothing changes nothing.
    pub fn select(&mut self, clicked_pos: Vector2)
        requires
            old(self).wf(),
        ensures
            final(self).wf(),
            final(self)@ == old(self)@.select(clicked_pos),
    {
        let n = self.floaters.len();
        let mut i: usize = 0;
        while i < n
            invariant
                i <= n,
                n == self.floaters.len(),
                old(self)@.valid(),
                self@.world == old(self)@.world,
                self@.floaters == old(self)@.floaters,
                self@.beach_ball == old(self)@.beach_ball,
                self@.selected == old(self)@.selected.union(
                    old(self)@.hits_among(clicked_pos, i as int),
                ),
                self@.selected.finite(),
                forall|id: usize| self@.selected.contains(id) ==> old(self)@.owns(id),
            decreases n - i,
        {
            let handle = self.floaters[i].get_handle();
            assert(self@.floaters[i as int] == self.floaters@[i as int]@);
            let hit = match self.physics.floater_contains(handle, Floater::size(), clicked_pos) {
                Ok(hit) => hit,
                Err(_) => unreached(),
            };
            if hit {
                self.selected.insert(handle);
            }
            proof {
                let g = old(self)@;
                let before = g.hits_among(clicked_pos, i as int);
                let after = g.hits_among(clicked_pos, i + 1);
                assert(hit == g.hit(i as int, clicked_pos));
                if hit {
                    assert(after =~= before.insert(handle@));
                } else {
                    assert(after =~= before);
                }
            }
            i = i + 1;
        }
        assert forall|id: usize| self@.selected.contains(id) implies self@.owns(id) by {
            assert(old(self)@.owns(id));
        }
    }

    /// A command click at `clicked_pos`: every selected floater gets the
    /// point as its target, then the selection is emptied, whatever it held.
    pub fn command(&mut self, clicked_pos: Vector2)
        requires
            old(self).wf(),
        ensures
            final(self).wf(),
            final(self)@ == old(self)@.command(clicked_pos),
            final(self)@.selected == Set::<usize>::empty(),
            forall|i: int|
                0 <= i < old(self)@.floaters.len() && old(self)@.selected.contains(
                    (#[trigger] old(self)@.floaters[i]).handle@,
                ) ==> final(self)@.floaters[i].target == Some(clicked_pos),
    {
        let n = self.floaters.len();
        let mut i: usize = 0;
        while i < n
            invariant
                i <= n,
                n == self.floaters.len(),
                n == old(self)@.floaters.len(),
                self@.world == old(self)@.world,
                self@.selected == old(self)@.selected,
                self@.beach_ball == old(self)@.beach_ball,
                forall|j: int|
                    0 <= j < i ==> #[trigger] self@.floaters[j] == old(self)@.commanded(
                        j,
                        clicked_pos,
                    ),
                forall|j: int| i <= j < n ==> #[trigger] self@.floaters[j] == old(self)@.floaters[j],
            decreases n - i,
        {
            let handle = self.floaters[i].get_handle();
            assert(self@.floaters[i as int] == self.floaters@[i as int]@);
            if self.selected.contains(handle) {
                let ghost before = self@.floaters;
                self.floaters[i].set_target(clicked_pos);
                assert(self@.floaters =~= before.update(
                    i as int,
                    before[i as int].with_target(clicked_pos),
                ));
            }
            i = i + 1;
        }
        let ghost retargeted = self@.floaters;
        self.selected.clear();
        proof {
            let want = old(self)@.command(clicked_pos);
            assert(self@.floaters == retargeted);
            assert(self@.floaters =~= want.floaters);
            lemma_same_owners_stay_valid(old(self)@, self@);
        }
    }

    /// A press of a pointer button at `(x, y)`. The left button selects, the
    /// right button commands, and any other button does nothing.
    pub fn mouse_button_down_event(&mut self, button: MouseButton, x: i32, y: i32)
        requires
            old(self).wf(),
        ensures
            final(self).wf(),
            final(self)@ == old(self)@.pointer_down(button, Vector2 { x, y }),
    {
        let clicked_pos = Vector2::new(x, y);
        match button {
            MouseButton::Left => {
                self.select(clicked_pos);
            },
            MouseButton::Right => {
                self.command(clicked_pos);
            },
            _ => (),
        }
    }

    /// Steers the floaters for one frame. The targets are read first, all of
    /// them; then each floater that has one is pulled by its target less its
    /// position of this moment. A floater without a target gets no force.
    pub fn update(&mut self)
        requires
            old(self).wf(),
        ensures
            final(self).wf(),
            final(self)@ == old(self)@.steered(),
    {
        let mut floaters_to_force: Vec<(BodyHandle, Vector2)> = Vec::new();
        let n = self.floaters.len();
        let mut i: usize = 0;
        while i < n
            invariant
                i <= n,
                n == self.floaters.len(),
                floaters_to_force@ == pursuits(self@.floaters.take(i as int)),
            decreases n - i,
        {
            let floater = &self.floaters[i];
            assert(self@.floaters[i as int] == self.floaters@[i as int]@);
            if let Some(target) = floater.target() {
                floaters_to_force.push((floater.get_handle(), target));
            }
            assert(self@.floaters.take(i + 1).drop_last() =~= self@.floaters.take(i as int));
            i = i + 1;
        }
        assert(self@.floaters.take(n as int) =~= self@.floaters);
        proof {
            lemma_pursuits_are_floaters(self@.floaters);
        }
        let ghost forces = steering(self@.world, self@.floaters);
        let m = floaters_to_force.len();
        let mut k: usize = 0;
        while k < m
            invariant
                k <= m,
                m == floaters_to_force.len(),
                old(self)@.valid(),
                floaters_to_force@ == pursuits(old(self)@.floaters),
                forces == steering(old(self)@.world, old(self)@.floaters),
                forall|j: int| 0 <= j < m ==> old(self)@.world.has((#[trigger] floaters_to_force[j]).0),
                self.physics.wf(),
                self@.floaters == old(self)@.floaters,
                self@.selected == old(self)@.selected,
                self@.beach_ball == old(self)@.beach_ball,
                self@.world == (World {
                    forces: old(self)@.world.forces + forces.take(k as int),
                    ..old(self)@.world
                }),
            decreases m - k,
        {
            let (handle, target) = floaters_to_force[k];
            let translation = match self.physics.get_pos_of(handle) {
                Ok(translation) => translation,
                Err(_) => unreached(),
            };
            let applied = self.physics.apply_force(handle, translation.force_toward(target));
            assert(applied is Ok);
            assert(forces.take(k + 1) =~= forces.take(k as int).push(forces[k as int]));
            assert(self@.world.forces =~= old(self)@.world.forces + forces.take(k + 1));
            k = k + 1;
        }
        assert(forces.take(m as int) =~= forces);
        proof {
            lemma_same_owners_stay_valid(old(self)@, self@);
        }
    }

    /// Closes the frame: takes over where the integrator put every ball, in
    /// the order of their creation, and forgets the forces that it has spent.
    /// A report of the wrong length is refused and changes nothing.
    pub fn step(&mut self, positions: &Vec<Vector2>) -> (done: Result<(), PhysicsError>)
        requires
            old(self).wf(),
        ensures
            final(self).wf(),
            positions@.len() == old(self)@.world.balls.len() ==> done is Ok && final(self)@ == old(
                self,
            )@.ticked(positions@),
            positions@.len() != old(self)@.world.balls.len() ==> done == Err::<(), PhysicsError>(
                PhysicsError::TickMismatch,
            ) && final(self)@ == old(self)@,
    {
        let done = self.physics.step(positions);
        proof {
            lemma_same_owners_stay_valid(old(self)@, self@);
        }
        done
    }

    /// The circles to draw for this frame: the floaters in their order, then
    /// the beach ball.
    pub fn draw(&self) -> (circles: Vec<Circle>)
        requires
            self.wf(),
        ensures
            circles@ == self@.scene(),
    {
        let mut circles: Vec<Circle> = Vec::new();
        let n = self.floaters.len();
        let mut i: usize = 0;
        while i < n
            invariant
                i <= n,
                n == self.floaters.len(),
                self.wf(),
                circles.len() == i,
                forall|j: int| 0 <= j < i ==> #[trigger] circles[j] == self@.shown(j),
            decreases n - i,
        {
            let floater = &self.floaters[i];
            assert(self@.floaters[i as int] == self.floaters@[i as int]@);
            let handle = floater.get_handle();
            let center = match self.physics.get_pos_of(handle) {
                Ok(center) => center,
                Err(_) => unreached(),
            };
            let color = if self.selected.contains(handle) {
                GREEN
            } else {
                floater.display_color()
            };
            circles.push(Circle { center, radius: Floater::size(), color });
            i = i + 1;
        }
        let center = match self.physics.get_pos_of(self.beach_ball.get_handle()) {
            Ok(center) => center,
            Err(_) => unreached(),
        };
        circles.push(
            Circle { center, radius: BeachBall::size(), color: self.beach_ball.display_color() },
        );
        assert(circles@ =~= self@.scene());
        circles
    }

    /// Gives every floater a target drawn at random inside the window, and
    /// touches nothing else.
    pub fn scatter_targets(&mut self)
        requires
            old(self).wf(),
        ensures
            final(self).wf(),
            final(self)@.world == old(self)@.world,
            final(self)@.selected == old(self)@.selected,
            final(self)@.beach_ball == old(self)@.beach_ball,
            final(self)@.floaters.len() == old(self)@.floaters.len(),
            forall|i: int|
                0 <= i < old(self)@.floaters.len() ==> {
                    let after = #[trigger] final(self)@.floaters[i];
                    &&& after.target is Some
                    &&& in_window(after.target->Some_0)
                    &&& after == old(self)@.floaters[i].with_target(after.target->Some_0)
                },
    {
        let mut rng = rand::thread_rng();
        let n = self.floaters.len();
        let mut i: usize = 0;
        while i < n
            invariant
                i <= n,
                n == self.floaters.len(),
                n == old(self)@.floaters.len(),
                self@.world == old(self)@.world,
                self@.selected == old(self)@.selected,
                self@.beach_ball == old(self)@.beach_ball,
                forall|j: int|
                    0 <= j < i ==> {
                        let after = #[trigger] self@.floaters[j];
                        &&& after.target is Some
                        &&& in_window(after.target->Some_0)
                        &&& after == old(self)@.floaters[j].with_target(after.target->Some_0)
                    },
                forall|j: int| i <= j < n ==> #[trigger] self@.floaters[j] == old(self)@.floaters[j],
            decreases n - i,
        {
            let x = get_rand_x(&mut rng);
            let y = get_rand_y(&mut rng);
            let ghost before = self@.floaters;
            assert(before[i as int] == self.floaters@[i as int]@);
            self.floaters[i].set_target(Vector2::new(x, y));
            assert(self@.floaters =~= before.update(
                i as int,
                before[i as int].with_target(Vector2 { x, y }),
            ));
            i = i + 1;
        }
        proof {
            lemma_same_owners_stay_valid(old(self)@, self@);
        }
    }

    /// The world.
    pub fn physics(&self) -> (physics: &PhysicsStruct)
        ensures
            physics@ == self@.world,
    {
        &self.physics
    }

    /// The floaters, in the order of their making.
    pub fn floaters(&self) -> (floaters: &Vec<Floater>)
        ensures
            floaters@.len() == self@.floaters.len(),
            forall|i: int| 0 <= i < floaters@.len() ==> (#[trigger] floaters@[i])@ == self@.floaters[i],
    {
        &self.floaters
    }

    /// The selection.
    pub fn selected(&self) -> (selected: &Selection)
        ensures
            selected@ == self@.selected,
    {
        &self.selected
    }

    /// The beach ball.
    pub fn beach_ball(&self) -> (ball: &BeachBall)
        ensures
            ball@ == self@.beach_ball,
    {
        &self.beach_ball
    }
}

} // verus!
