use floaters::floater::{BeachBall, Color, Floater, PhysicsBall, BLUE, GREEN, RED};
use floaters::geometry::Vector2;
use floaters::physics::PhysicsStruct;
use floaters::selection::Selection;

fn two_handles() -> (floaters::physics::BodyHandle, floaters::physics::BodyHandle) {
    let mut world = PhysicsStruct::new((800, 600));
    let a = world.create_ball(10, Vector2::new(1, 1), 30).unwrap();
    let b = world.create_ball(10, Vector2::new(2, 2), 30).unwrap();
    (a, b)
}

#[test]
fn fresh_floater_has_no_target() {
    let (a, _) = two_handles();
    let floater = Floater::new(a);
    assert_eq!(floater.target(), None);
    assert_eq!(floater.target, None);
    assert_eq!(floater.get_handle(), a);
    assert_eq!(floater.display_color(), Color::Blue);
}

#[test]
fn set_target_overwrites() {
    let (a, _) = two_handles();
    let mut floater = Floater::new(a);
    floater.set_target(Vector2::new(3, 4));
    assert_eq!(floater.target(), Some(Vector2::new(3, 4)));
    floater.set_target(Vector2::new(-9, 100000));
    assert_eq!(floater.target(), Some(Vector2::new(-9, 100000)));
    assert_eq!(floater.get_handle(), a);
}

#[test]
fn set_target_twice_is_as_once() {
    let (a, _) = two_handles();
    let mut once = Floater::new(a);
    once.set_target(Vector2::new(3, 4));
    let mut twice = Floater::new(a);
    twice.set_target(Vector2::new(3, 4));
    twice.set_target(Vector2::new(3, 4));
    assert_eq!(once.target(), twice.target());
    assert_eq!(once.get_handle(), twice.get_handle());
    assert_eq!(once.display_color(), twice.display_color());
}

#[test]
fn kinds_of_ball_have_their_size_and_colour() {
    assert_eq!(<Floater as PhysicsBall>::size(), 10);
    assert_eq!(<BeachBall as PhysicsBall>::size(), 45);
    assert_eq!(<Floater as PhysicsBall>::color(), BLUE);
    assert_eq!(<BeachBall as PhysicsBall>::color(), RED);
    let (_, b) = two_handles();
    let ball = BeachBall::new(b);
    assert_eq!(ball.get_handle(), b);
    assert_eq!(ball.display_color(), Color::Red);
}

#[test]
fn colours_have_their_channels() {
    assert_eq!(BLUE.channels(), (1, 33, 98, 100));
    assert_eq!(GREEN.channels(), (1, 98, 43, 100));
    assert_eq!(RED.channels(), (98, 1, 35, 100));
}

#[test]
fn selection_is_a_set() {
    let (a, b) = two_handles();
    let mut selection = Selection::new();
    assert!(selection.is_empty());
    assert!(selection.insert(a));
    assert!(!selection.insert(a));
    assert_eq!(selection.len(), 1);
    assert!(selection.contains(a));
    assert!(!selection.contains(b));
    assert!(selection.insert(b));
    assert_eq!(selection.len(), 2);
    selection.clear();
    assert!(selection.is_empty());
    assert!(!selection.contains(a));
    selection.clear();
    assert_eq!(selection.len(), 0);
}
