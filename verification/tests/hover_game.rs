use floaters::floater::Color;
use floaters::game::Circle;
use floaters::geometry::{Force, Vector2};
use floaters::hover::{
    Action, KeyCode, MyGame, BALL_DENSITY, BALL_RAD, GRAVITY, HOVER_FORCE, IMPULSE,
};
use floaters::physics::{AppliedForce, Ball, ForceType, PhysicsError};

#[test]
fn keys_map_to_actions() {
    assert_eq!(Action::from_keycode(KeyCode::Up), Some(Action::Up));
    assert_eq!(Action::from_keycode(KeyCode::Left), Some(Action::Left));
    assert_eq!(Action::from_keycode(KeyCode::Right), Some(Action::Right));
    assert_eq!(Action::from_keycode(KeyCode::C), Some(Action::Hover));
    assert_eq!(Action::from_keycode(KeyCode::Other), None);
}

#[test]
fn new_hover_game_is_as_described() {
    let game = MyGame::new();
    assert_eq!(game.physics().dims(), (800, 600));
    assert_eq!(game.physics().gravity(), Vector2::new(0, 300));
    assert_eq!(
        game.physics().balls(),
        &vec![Ball { position: Vector2::new(300, 300), radius: 20, density: 50, linear_damping: 1 }]
    );
    assert_eq!(game.get_ball(), Ball { position: Vector2::new(300, 300), radius: 20, density: 50, linear_damping: 1 });
    assert!(!game.hover_on());
    assert!(game.physics().forces().is_empty());
    assert_eq!((BALL_RAD, BALL_DENSITY, GRAVITY), (20, 50, 300));
    assert_eq!((HOVER_FORCE, IMPULSE), (-1875, 1000));
}

#[test]
fn arrow_keys_give_impulses() {
    let mut game = MyGame::new();
    game.key_down_event(KeyCode::Up);
    game.key_down_event(KeyCode::Left);
    game.key_down_event(KeyCode::Right);
    let forces = game.physics().forces().clone();
    let handle = forces[0].handle;
    assert_eq!(handle.index(), 0);
    assert_eq!(
        forces,
        vec![
            AppliedForce { handle, force: Force { x: 0, y: -1000 }, kind: ForceType::Impulse },
            AppliedForce { handle, force: Force { x: -1000, y: 0 }, kind: ForceType::Impulse },
            AppliedForce { handle, force: Force { x: 1000, y: 0 }, kind: ForceType::Impulse },
        ]
    );
    assert!(!game.hover_on());
}

#[test]
fn c_switches_the_hover_and_other_keys_do_nothing() {
    let mut game = MyGame::new();
    game.key_down_event(KeyCode::Other);
    assert!(!game.hover_on());
    assert!(game.physics().forces().is_empty());
    game.key_down_event(KeyCode::C);
    assert!(game.hover_on());
    assert!(game.physics().forces().is_empty());
    game.key_down_event(KeyCode::C);
    assert!(!game.hover_on());
}

#[test]
fn update_applies_the_hover_force_only_while_the_hover_is_on() {
    let mut game = MyGame::new();
    game.update();
    assert!(game.physics().forces().is_empty());
    game.key_down_event(KeyCode::C);
    game.update();
    let forces = game.physics().forces().clone();
    assert_eq!(forces.len(), 1);
    assert_eq!(forces[0].force, Force { x: 0, y: -1875 });
    assert_eq!(forces[0].kind, ForceType::Force);
    assert_eq!(game.step(&vec![Vector2::new(300, 310)]), Ok(()));
    assert!(game.physics().forces().is_empty());
    assert_eq!(game.get_ball().position, Vector2::new(300, 310));
    assert!(game.hover_on());
}

#[test]
fn hover_step_refuses_a_report_of_the_wrong_length() {
    let mut game = MyGame::new();
    assert_eq!(game.step(&vec![]), Err(PhysicsError::TickMismatch));
    assert_eq!(game.get_ball().position, Vector2::new(300, 300));
}

#[test]
fn hover_ball_is_drawn_green_while_the_hover_is_on() {
    let mut game = MyGame::new();
    assert_eq!(
        game.draw(),
        Circle { center: Vector2::new(300, 300), radius: 20, color: Color::Blue }
    );
    game.key_down_event(KeyCode::C);
    assert_eq!(
        game.draw(),
        Circle { center: Vector2::new(300, 300), radius: 20, color: Color::Green }
    );
}
