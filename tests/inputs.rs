use grid_animation::character::{AnimationState, Character, Direction};
use grid_animation::inputs::{command, handle_inputs, Command, KeyCode, KeyEventKind, KeyInput};

fn press(code: KeyCode) -> KeyInput {
    KeyInput { code, kind: KeyEventKind::Press }
}

fn release(code: KeyCode) -> KeyInput {
    KeyInput { code, kind: KeyEventKind::Release }
}

fn direction_of(c: &Character) -> Option<Direction> {
    match c.animation_state() {
        AnimationState::Idle => None,
        AnimationState::Animating(a) => Some(a.direction),
    }
}

#[test]
fn key_commands() {
    assert_eq!(command(&press(KeyCode::Left)), Some(Command::Move(Direction::Left)));
    assert_eq!(command(&press(KeyCode::Right)), Some(Command::Move(Direction::Right)));
    assert_eq!(command(&press(KeyCode::Up)), Some(Command::Move(Direction::Down)));
    assert_eq!(command(&press(KeyCode::Down)), Some(Command::Move(Direction::Up)));
    assert_eq!(command(&press(KeyCode::Char('q'))), Some(Command::Quit));
    assert_eq!(command(&press(KeyCode::Char('x'))), None);
    assert_eq!(command(&press(KeyCode::Other)), None);
    let repeat = KeyInput { code: KeyCode::Left, kind: KeyEventKind::Repeat };
    assert_eq!(command(&repeat), Some(Command::Move(Direction::Left)));
    assert_eq!(command(&release(KeyCode::Left)), None);
    assert_eq!(command(&release(KeyCode::Char('q'))), None);
}

#[test]
fn no_events_change_nothing() {
    let mut c = Character::new();
    assert!(!handle_inputs(&mut c, &Vec::new()));
    assert_eq!(direction_of(&c), None);
}

#[test]
fn first_move_of_the_frame_wins() {
    let mut c = Character::new();
    let events = vec![press(KeyCode::Char('a')), press(KeyCode::Up), press(KeyCode::Left)];
    assert!(!handle_inputs(&mut c, &events));
    assert_eq!(direction_of(&c), Some(Direction::Down));
}

#[test]
fn releases_are_skipped() {
    let mut c = Character::new();
    let events = vec![release(KeyCode::Right), press(KeyCode::Down)];
    assert!(!handle_inputs(&mut c, &events));
    assert_eq!(direction_of(&c), Some(Direction::Up));
}

#[test]
fn quit_stops_the_frame() {
    let mut c = Character::new();
    let events = vec![press(KeyCode::Char('q')), press(KeyCode::Right)];
    assert!(handle_inputs(&mut c, &events));
    assert_eq!(direction_of(&c), None);
}

#[test]
fn moves_before_quit_are_applied() {
    let mut c = Character::new();
    let events = vec![press(KeyCode::Left), press(KeyCode::Char('q'))];
    assert!(handle_inputs(&mut c, &events));
    assert_eq!(direction_of(&c), Some(Direction::Left));
}

#[test]
fn released_quit_key_does_not_quit() {
    let mut c = Character::new();
    assert!(!handle_inputs(&mut c, &vec![release(KeyCode::Char('q'))]));
}

#[test]
fn moves_during_an_animation_are_ignored() {
    let mut c = Character::new();
    c.move_right();
    c.update(1000);
    assert!(!handle_inputs(&mut c, &vec![press(KeyCode::Left), press(KeyCode::Up)]));
    assert_eq!(direction_of(&c), Some(Direction::Right));
}
