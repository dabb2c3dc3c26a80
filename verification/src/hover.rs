//! A smaller game on the same world: one ball under gravity, which the arrow
//! keys push about and which a switch keeps hovering.

use crate::floater::Color;
use crate::game::{Circle, WIN_HEIGHT, WIN_WIDTH};
use crate::geometry::{Force, Vector2};
use crate::physics::{boundary, Ball, BodyHandle, PhysicsError, PhysicsStruct, World};
use vstd::pervasive::unreached;
use vstd::prelude::*;

verus! {

/// The radius of the ball.
pub const BALL_RAD: i32 = 20;

/// The density of the ball, in ten-thousandths of the engine's unit.
pub const BALL_DENSITY: i32 = 50;

/// How hard gravity pulls downward. The vertical axis points down.
pub const GRAVITY: i32 = 300;

/// The vertical force that holds the ball up while the hover is on.
pub const HOVER_FORCE: i64 = -1875;

/// The strength of the push that an arrow key gives.
pub const IMPULSE: i64 = 1000;

/// The keys that the game tells apart.
#[derive(Clone, Copy, Debug, PartialEq, Eq, Structural)]
pub enum KeyCode {
    Up,
    Left,
    Right,
    C,
    /// Any other key.
    Other,
}

/// What a key asks for.
#[derive(Clone, Copy, Debug, PartialEq, Eq, Structural)]
pub enum Action {
    Up,
    Left,
    Right,
    Hover,
}

impl Action {
    /// The action of a key: the three arrows push, `C` switches the hover, and
    /// no other key does anything.
    pub open spec fn of_key(key: KeyCode) -> Option<Action> {
        match key {
            KeyCode::Up => Some(Action::Up),
            KeyCode::Left => Some(Action::Left),
            KeyCode::Right => Some(Action::Right),
            KeyCode::C => Some(Action::Hover),
            KeyCode::Other => None,
        }
    }

    /// The push that the action gives the ball, if it gives one.
    pub open spec fn push(self) -> Option<Force> {
        match self {
            Action::Up => Some(Force { x: 0, y: (-IMPULSE) as i64 }),
            Action::Left => Some(Force { x: (-IMPULSE) as i64, y: 0 }),
            Action::Right => Some(Force { x: IMPULSE, y: 0 }),
            Action::Hover => None,
        }
    }

    /// The action of a key, if it has one.
    pub fn from_keycode(key: KeyCode) -> (action: Option<Action>)
        ensures
            action == Action::of_key(key),
    {
        match key {
            KeyCode::Up => Some(Action::Up),
            KeyCode::Left => Some(Action::Left),
            KeyCode::Right => Some(Action::Right),
            KeyCode::C => Some(Action::Hover),
            _ => None,
        }
    }
}

/// What the game holds, as plain mathematics.
pub struct Hover {
    pub world: World,
    pub ball: BodyHandle,
    pub hover_on: bool,
}

impl Hover {
    /// The world is valid and the ball is one of its balls.
    pub open spec fn valid(self) -> bool {
        self.world.valid() && self.world.has(self.ball)
    }

    /// The game right after its making: the ball alone in a world with
    /// gravity, the hover off.
    pub open spec fn initial() -> Hover {
        Hover {
            world: World {
                dims: (WIN_WIDTH, WIN_HEIGHT),
                gravity: Vector2 { x: 0, y: GRAVITY },
                walls: boundary((WIN_WIDTH, WIN_HEIGHT)),
                balls: seq![Ball::made(Vector2 { x: 300, y: 300 }, BALL_RAD, BALL_DENSITY)],
                forces: Seq::empty(),
            },
            ball: BodyHandle::at(0),
            hover_on: false,
        }
    }

    /// The game after a key went down.
    pub open spec fn key_down(self, key: KeyCode) -> Hover {
        match Action::of_key(key) {
            Some(Action::Hover) => Hover { hover_on: !self.hover_on, ..self },
            Some(action) => Hover {
                world: self.world.with_impulse(self.ball, action.push()->Some_0),
                ..self
            },
            None => self,
        }
    }

    /// The game with the force of this frame applied: the hover force while
    /// the hover is on, and none while it is off.
    pub open spec fn steered(self) -> Hover {
        if self.hover_on {
            Hover {
                world: self.world.with_force(self.ball, Force { x: 0, y: HOVER_FORCE }),
                ..self
            }
        } else {
            self
        }
    }

    /// The game after one tick of the integrator.
    pub open spec fn ticked(self, positions: Seq<Vector2>) -> Hover {
        Hover { world: self.world.after_tick(positions), ..self }
    }

    /// The circle that the ball is drawn as: green while the hover is on,
    /// blue while it is off.
    pub open spec fn shown(self) -> Circle {
        Circle {
            center: self.world.position_of(self.ball),
            radius: BALL_RAD,
            color: if self.hover_on {
                Color::Green
            } else {
                Color::Blue
            },
        }
    }
}

/// The running game.
pub struct MyGame {
    physics: PhysicsStruct,
    ball: BodyHandle,
    hover_on: bool,
}

impl View for MyGame {
    type V = Hover;

    closed spec fn view(&self) -> Hover {
        Hover { world: self.physics@, ball: self.ball, hover_on: self.hover_on }
    }
}

impl MyGame {
    /// The invariant of a game; see [`Hover::valid`].
    pub open spec fn wf(&self) -> bool {
        self@.valid()
    }

    /// A new game.
    pub fn new() -> (game: MyGame)
        ensures
            game.wf(),
            game@ == Hover::initial(),
    {
        let mut physics = PhysicsStruct::with_gravity(
            (WIN_WIDTH, WIN_HEIGHT),
            Vector2::new(0, GRAVITY),
        );
        let ball = match physics.create_ball(BALL_RAD, Vector2::new(300, 300), BALL_DENSITY) {
            Ok(ball) => ball,
            Err(_) => unreached(),
        };
        let game = MyGame { physics, ball, hover_on: false };
        proof {
            BodyHandle::lemma_view_at(0);
            assert(game@.world.balls =~= Hover::initial().world.balls);
        }
        game
    }

    /// The ball as the world holds it.
    pub fn get_ball(&self) -> (ball: Ball)
        requires
            self.wf(),
        ensures
            ball == self@.world.balls[self@.ball@ as int],
    {
        self.physics.balls()[self.ball.index()]
    }

    /// Whether the hover is on.
    pub fn hover_on(&self) -> (on: bool)
        ensures
            on == self@.hover_on,
    {
        self.hover_on
    }

    /// The world.
    pub fn physics(&self) -> (physics: &PhysicsStruct)
        ensures
            physics@ == self@.world,
    {
        &self.physics
    }

    /// Applies the force of this frame: the hover force while the hover is
    /// on.
    pub fn update(&mut self)
        requires
            old(self).wf(),
        ensures
            final(self).wf(),
            final(self)@ == old(self)@.steered(),
    {
        if self.hover_on {
            let applied = self.physics.apply_force(self.ball, Force { x: 0, y: HOVER_FORCE });
            assert(applied is Ok);
        }
    }

    /// Closes the frame: takes over where the integrator put every ball. A
    /// report of the wrong length is refused and changes nothing.
    pub fn step(&mut self, positions: &Vec<Vector2>) -> (done: Result<(), PhysicsError>)
        requires
            old(self).wf(),
        ensures
            final(self).wf(),
            positions@.len() == old(self)@.world.balls.len() ==> done is Ok && final(self)@ == old(
                self,
            )@.ticked(positions@),
            positions@.len() != old(self)@.world.balls.len() ==> done == Err::<(), PhysicsError>(
                PhysicsError::TickMismatch,
            ) && final(self)@ == old(self)@,
    {
        self.physics.step(positions)
    }

    /// A key went down. An arrow key pushes the ball up, left or right, `C`
    /// switches the hover on or off, and any other key does nothing.
    pub fn key_down_event(&mut self, keycode: KeyCode)
        requires
            old(self).wf(),
        ensures
            final(self).wf(),
            final(self)@ == old(self)@.key_down(keycode),
    {
        let force_up = Force { x: 0, y: -IMPULSE };
        let force_left = Force { x: -IMPULSE, y: 0 };
        let force_right = Force { x: IMPULSE, y: 0 };

        if let Some(act) = Action::from_keycode(keycode) {
            match act {
                Action::Up => {
                    let pushed = self.physics.apply_impulse(self.ball, force_up);
                    assert(pushed is Ok);
                },
                Action::Left => {
                    let pushed = self.physics.apply_impulse(self.ball, force_left);
                    assert(pushed is Ok);
                },
                Action::Right => {
                    let pushed = self.physics.apply_impulse(self.ball, force_right);
                    assert(pushed is Ok);
                },
                Action::Hover => {
                    self.hover_on = !self.hover_on;
                },
            }
        }
    }

    /// The circle to draw for this frame.
    pub fn draw(&self) -> (circle: Circle)
        requires
            self.wf(),
        ensures
            circle == self@.shown(),
    {
        let center = match self.physics.get_pos_of(self.ball) {
            Ok(center) => center,
            Err(_) => unreached(),
        };
        Circle { center, radius: BALL_RAD, color: if self.hover_on {
            Color::Green
        } else {
            Color::Blue
        } }
    }

    /// Switching the hover twice leaves the game as it was, and no key but
    /// `C` touches the switch.
    pub proof fn lemma_hover_switch(game: Hover, key: KeyCode)
        ensures
            game.key_down(KeyCode::C).key_down(KeyCode::C) == game,
            key != KeyCode::C ==> game.key_down(key).hover_on == game.hover_on,
            game.key_down(KeyCode::Other) == game,
    {
    }
}

} // verus!
