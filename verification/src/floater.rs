//! The two kinds of body that the simulation shows: floaters, which pursue a
//! target, and the beach ball, which only gets in their way.

use crate::geometry::Vector2;
use crate::physics::BodyHandle;
use vstd::prelude::*;

verus! {

/// The radius that a floater is drawn and hit-tested with.
pub const FLOATER_SIZE: i32 = 10;

/// The radius of the beach ball.
pub const BEACH_BALL_SIZE: i32 = 45;

/// A display colour.
#[derive(Clone, Copy, Debug, PartialEq, Eq, Structural)]
pub enum Color {
    Blue,
    Green,
    Red,
}

pub const BLUE: Color = Color::Blue;

pub const GREEN: Color = Color::Green;

pub const RED: Color = Color::Red;

impl Color {
    /// Red, green, blue and alpha, each in hundredths of full intensity.
    pub open spec fn channels_spec(self) -> (u8, u8, u8, u8) {
        match self {
            Color::Blue => (1, 33, 98, 100),
            Color::Green => (1, 98, 43, 100),
            Color::Red => (98, 1, 35, 100),
        }
    }

    /// Red, green, blue and alpha, each in hundredths of full intensity.
    pub fn channels(self) -> (rgba: (u8, u8, u8, u8))
        ensures
            rgba == self.channels_spec(),
    {
        match self {
            Color::Blue => (1, 33, 98, 100),
            Color::Green => (1, 98, 43, 100),
            Color::Red => (98, 1, 35, 100),
        }
    }
}

/// What the simulation asks of every kind of ball.
pub trait PhysicsBall {
    /// The body that this ball owns.
    fn get_handle(&self) -> BodyHandle;

    /// The radius of every ball of this kind.
    fn size() -> i32;

    /// The colour that a ball of this kind starts with.
    fn color() -> Color;
}

/// What a floater holds, as plain mathematics.
pub struct FloaterView {
    pub handle: BodyHandle,
    pub target: Option<Vector2>,
    pub color: Color,
}

impl FloaterView {
    /// The floater of a fresh body: blue, with nothing to pursue.
    pub open spec fn fresh(handle: BodyHandle) -> FloaterView {
        FloaterView { handle, target: None, color: Color::Blue }
    }

    /// The same floater in pursuit of `target`.
    pub open spec fn with_target(self, target: Vector2) -> FloaterView {
        FloaterView { target: Some(target), ..self }
    }
}

/// A body that pursues its target, if it has one. The handle is given once,
/// at construction, and is the floater's identity.
#[derive(Debug)]
pub struct Floater {
    handle: BodyHandle,
    pub target: Option<Vector2>,
    pub color: Color,
}

impl View for Floater {
    type V = FloaterView;

    closed spec fn view(&self) -> FloaterView {
        FloaterView { handle: self.handle, target: self.target, color: self.color }
    }
}

impl Floater {
    /// A floater for the body `handle`, with no target yet.
    pub fn new(handle: BodyHandle) -> (floater: Floater)
        ensures
            floater@ == FloaterView::fresh(handle),
    {
        Floater { handle, target: None, color: BLUE }
    }

    /// Sets the point to pursue, whatever the floater pursued before. Any
    /// point will do, inside the world or not.
    pub fn set_target(&mut self, target: Vector2)
        ensures
            final(self)@ == old(self)@.with_target(target),
    {
        self.target = Some(target);
    }

    /// The body that this floater owns.
    pub fn get_handle(&self) -> (handle: BodyHandle)
        ensures
            handle == self@.handle,
    {
        self.handle
    }

    /// The point that the floater pursues, if any.
    pub fn target(&self) -> (target: Option<Vector2>)
        ensures
            target == self@.target,
    {
        self.target
    }

    /// The colour that the floater is shown in while it is not selected.
    pub fn display_color(&self) -> (color: Color)
        ensures
            color == self@.color,
    {
        self.color
    }

    /// Setting the same target twice in a row leaves a floater exactly as
    /// setting it once does.
    pub proof fn lemma_set_target_idempotent(floater: FloaterView, target: Vector2)
        ensures
            floater.with_target(target).with_target(target) == floater.with_target(target),
    {
    }

    /// A new target replaces the old one and touches nothing else.
    pub proof fn lemma_set_target_overwrites(floater: FloaterView, first: Vector2, second: Vector2)
        ensures
            floater.with_target(first).with_target(second) == floater.with_target(second),
            floater.with_target(second).handle == floater.handle,
            floater.with_target(second).color == floater.color,
    {
    }
}

impl PhysicsBall for Floater {
    fn get_handle(&self) -> (handle: BodyHandle)
        ensures
            handle == self@.handle,
    {
        self.handle
    }

    fn size() -> (size: i32)
        ensures
            size == FLOATER_SIZE,
    {
        FLOATER_SIZE
    }

    fn color() -> (color: Color)
        ensures
            color == Color::Blue,
    {
        BLUE
    }
}

/// What the beach ball holds, as plain mathematics.
pub struct BeachBallView {
    pub handle: BodyHandle,
    pub color: Color,
}

/// A large body that pursues nothing.
#[derive(Debug)]
pub struct BeachBall {
    handle: BodyHandle,
    pub color: Color,
}

impl View for BeachBall {
    type V = BeachBallView;

    closed spec fn view(&self) -> BeachBallView {
        BeachBallView { handle: self.handle, color: self.color }
    }
}

impl BeachBall {
    /// The beach ball for the body `handle`.
    pub fn new(handle: BodyHandle) -> (ball: BeachBall)
        ensures
            ball@ == (BeachBallView { handle, color: Color::Red }),
    {
        BeachBall { handle, color: RED }
    }

    /// The colour that the ball is shown in.
    pub fn display_color(&self) -> (color: Color)
        ensures
            color == self@.color,
    {
        self.color
    }
}

impl PhysicsBall for BeachBall {
    fn get_handle(&self) -> (handle: BodyHandle)
        ensures
            handle == self@.handle,
    {
        self.handle
    }

    fn size() -> (size: i32)
        ensures
            size == BEACH_BALL_SIZE,
    {
        BEACH_BALL_SIZE
    }

    fn color() -> (color: Color)
        ensures
            color == Color::Red,
    {
        RED
    }
}

} // verus!
