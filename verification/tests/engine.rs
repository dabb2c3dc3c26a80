use floaters::game::MyGame;
use floaters::geometry::Vector2;
use floaters::hover;
use floaters::physics::{AppliedForce, ForceType as Kind, PhysicsStruct};

use nalgebra::Vector2 as EngineVector;
use ncollide2d::shape::{Ball, Cuboid, ShapeHandle};
use nphysics2d::force_generator::DefaultForceGeneratorSet;
use nphysics2d::joint::DefaultJointConstraintSet;
use nphysics2d::math::{Force, ForceType};
use nphysics2d::object::{
    Body, BodyPartHandle, ColliderDesc, DefaultBodyHandle, DefaultBodySet, DefaultColliderSet,
    Ground, RigidBodyDesc,
};
use nphysics2d::world::{DefaultGeometricalWorld, DefaultMechanicalWorld};

/// A rigid-body engine that integrates what the library's world describes.
struct Engine {
    mechanical_world: DefaultMechanicalWorld<f32>,
    geometrical_world: DefaultGeometricalWorld<f32>,
    bodies: DefaultBodySet<f32>,
    colliders: DefaultColliderSet<f32>,
    joint_constraints: DefaultJointConstraintSet<f32>,
    force_generators: DefaultForceGeneratorSet<f32>,
    balls: Vec<DefaultBodyHandle>,
}

impl Engine {
    fn mirror(world: &PhysicsStruct) -> Engine {
        let gravity = world.gravity();
        let mechanical_world =
            DefaultMechanicalWorld::new(EngineVector::new(gravity.x as f32, gravity.y as f32));
        let geometrical_world = DefaultGeometricalWorld::new();
        let mut bodies = DefaultBodySet::new();
        let mut colliders = DefaultColliderSet::new();
        for wall in world.walls() {
            let shape = ShapeHandle::new(Cuboid::new(EngineVector::new(
                wall.half_width as f32,
                wall.half_height as f32,
            )));
            let handle = bodies.insert(Ground::new());
            let collider = ColliderDesc::new(shape)
                .translation(EngineVector::new(wall.center.x as f32, wall.center.y as f32))
                .build(BodyPartHandle(handle, 0));
            colliders.insert(collider);
        }
        let mut balls = Vec::new();
        for ball in world.balls() {
            let shape = ShapeHandle::new(Ball::new(ball.radius as f32));
            let body = RigidBodyDesc::new()
                .translation(EngineVector::new(ball.position.x as f32, ball.position.y as f32))
                .linear_damping(ball.linear_damping as f32)
                .build();
            let handle = bodies.insert(body);
            let collider = ColliderDesc::new(shape)
                .density(ball.density as f32 / 10000.0)
                .build(BodyPartHandle(handle, 0));
            colliders.insert(collider);
            balls.push(handle);
        }
        Engine {
            mechanical_world,
            geometrical_world,
            bodies,
            colliders,
            joint_constraints: DefaultJointConstraintSet::new(),
            force_generators: DefaultForceGeneratorSet::new(),
            balls,
        }
    }

    fn position(&self, index: usize) -> EngineVector<f32> {
        self.bodies.rigid_body(self.balls[index]).expect("Object not found").position().translation.vector
    }

    /// Hands the applied forces over and advances one tick. Returns where
    /// the balls went, rounded to whole units.
    fn tick(&mut self, forces: &Vec<AppliedForce>) -> Vec<Vector2> {
        for applied in forces {
            let body = self
                .bodies
                .rigid_body_mut(self.balls[applied.handle.index()])
                .expect("Object not found");
            let force = EngineVector::new(applied.force.x as f32, applied.force.y as f32);
            let kind = match applied.kind {
                Kind::Force => ForceType::Force,
                Kind::Impulse => ForceType::Impulse,
            };
            body.apply_force(0, &Force::new(force, 0.0), kind, true);
        }
        self.mechanical_world.step(
            &mut self.geometrical_world,
            &mut self.bodies,
            &mut self.colliders,
            &mut self.joint_constraints,
            &mut self.force_generators,
        );
        (0..self.balls.len())
            .map(|i| {
                let at = self.position(i);
                Vector2::new(at.x.round() as i32, at.y.round() as i32)
            })
            .collect()
    }

    /// One frame: steer, hand the forces over, advance one tick, report.
    fn frame(&mut self, game: &mut MyGame) {
        game.update();
        let report = self.tick(game.physics().forces());
        game.step(&report).expect("one position for each ball");
    }

    /// One frame of the hover game.
    fn hover_frame(&mut self, game: &mut hover::MyGame) {
        game.update();
        let report = self.tick(game.physics().forces());
        game.step(&report).expect("one position for each ball");
    }
}

fn distance(a: EngineVector<f32>, x: f32, y: f32) -> f32 {
    ((a.x - x) * (a.x - x) + (a.y - y) * (a.y - y)).sqrt()
}

#[test]
fn commanded_floater_moves_closer_to_its_target() {
    let mut game = MyGame::with_spawns(&vec![Vector2::new(600, 450)]);
    let mut engine = Engine::mirror(game.physics());
    game.select(Vector2::new(600, 450));
    assert_eq!(game.selected().len(), 1);
    game.command(Vector2::new(100, 100));
    assert!(game.selected().is_empty());

    let mut last = distance(engine.position(0), 100.0, 100.0);
    let start = last;
    for _ in 0..30 {
        engine.frame(&mut game);
        let now = distance(engine.position(0), 100.0, 100.0);
        assert!(now < last, "{} is not closer than {}", now, last);
        last = now;
    }
    assert!(last < start - 1.0);
    // The library holds what the engine reported, rounded to whole units.
    let held = game.physics().get_pos_of(game.floaters()[0].get_handle()).unwrap();
    let at = engine.position(0);
    assert_eq!(held, Vector2::new(at.x.round() as i32, at.y.round() as i32));
}

#[test]
fn floater_without_target_stays_where_it_is() {
    let mut game = MyGame::with_spawns(&vec![Vector2::new(600, 450), Vector2::new(200, 150)]);
    let mut engine = Engine::mirror(game.physics());
    game.select(Vector2::new(600, 450));
    game.command(Vector2::new(700, 450));
    for _ in 0..60 {
        engine.frame(&mut game);
    }
    let idle = engine.position(1);
    assert_eq!((idle.x, idle.y), (200.0, 150.0));
    assert_eq!(
        game.physics().get_pos_of(game.floaters()[1].get_handle()),
        Ok(Vector2::new(200, 150))
    );
    assert!(engine.position(0).x > 600.0);
}

#[test]
fn walls_hold_a_floater_that_is_sent_outside() {
    let mut game = MyGame::with_spawns(&vec![Vector2::new(60, 450)]);
    let mut engine = Engine::mirror(game.physics());
    game.select(Vector2::new(60, 450));
    game.command(Vector2::new(-400, 450));
    for _ in 0..600 {
        engine.frame(&mut game);
        let at = engine.position(0);
        assert!(at.x >= -2.0 && at.x <= 802.0, "x = {}", at.x);
        assert!(at.y >= -2.0 && at.y <= 602.0, "y = {}", at.y);
        let held = game.physics().get_pos_of(game.floaters()[0].get_handle()).unwrap();
        assert!(-2 <= held.x && held.x <= 802);
        assert!(-2 <= held.y && held.y <= 602);
    }
    // It went as far as the wall lets it.
    assert!(engine.position(0).x < 30.0);
}

#[test]
fn floater_in_the_middle_approaches_its_target() {
    let mut game = MyGame::with_spawns(&vec![Vector2::new(400, 300)]);
    let mut engine = Engine::mirror(game.physics());
    game.select(Vector2::new(400, 300));
    assert_eq!(game.selected().len(), 1);
    assert!(game.selected().contains(game.floaters()[0].get_handle()));
    game.command(Vector2::new(100, 100));
    assert_eq!(game.floaters()[0].target(), Some(Vector2::new(100, 100)));
    assert!(game.selected().is_empty());

    let mut last = distance(engine.position(0), 100.0, 100.0);
    for _ in 0..30 {
        engine.frame(&mut game);
        let now = distance(engine.position(0), 100.0, 100.0);
        assert!(now < last, "{} is not closer than {}", now, last);
        last = now;
    }
}

#[test]
fn hover_ball_falls_until_the_hover_holds_it() {
    let mut game = hover::MyGame::new();
    let mut engine = Engine::mirror(game.physics());
    for _ in 0..20 {
        engine.hover_frame(&mut game);
    }
    let fallen = engine.position(0).y;
    assert!(fallen > 310.0, "y = {}", fallen);
    assert_eq!(game.get_ball().position.y, fallen.round() as i32);

    game.key_down_event(hover::KeyCode::C);
    assert!(game.hover_on());
    // The hover force all but balances the weight: the fall dies down.
    for _ in 0..300 {
        engine.hover_frame(&mut game);
    }
    let held = engine.position(0).y;
    for _ in 0..60 {
        engine.hover_frame(&mut game);
    }
    let later = engine.position(0).y;
    assert!(later - held < 5.0, "fell from {} to {}", held, later);
    assert!(later < 580.0);
}

#[test]
fn arrow_key_pushes_the_hover_ball_sideways() {
    let mut game = hover::MyGame::new();
    let mut engine = Engine::mirror(game.physics());
    // The engine works out the mass of a body in its first tick.
    engine.hover_frame(&mut game);
    game.key_down_event(hover::KeyCode::Right);
    assert_eq!(game.physics().forces().len(), 1);
    for _ in 0..10 {
        engine.hover_frame(&mut game);
    }
    assert!(engine.position(0).x > 310.0, "x = {}", engine.position(0).x);
    assert!(game.get_ball().position.x > 310);
    assert!(game.physics().forces().is_empty());
}
