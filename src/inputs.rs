use vstd::prelude::*;

use crate::character::{Character, Direction};

verus! {

/// The key of a key event, as far as the game reads it.
#[derive(Clone, Copy, Debug, PartialEq, Eq)]
pub enum KeyCode {
    Left,
    Right,
    Up,
    Down,
    Char(char),
    /// Any other key.
    Other,
}

/// Whether a key went down, repeats, or went up.
#[derive(Clone, Copy, Debug, PartialEq, Eq)]
pub enum KeyEventKind {
    Press,
    Repeat,
    Release,
}

/// One key event.
#[derive(Clone, Copy, Debug, PartialEq, Eq)]
pub struct KeyInput {
    pub code: KeyCode,
    pub kind: KeyEventKind,
}

/// What a key event asks of the game.
#[derive(Clone, Copy, Debug, PartialEq, Eq)]
pub enum Command {
    Move(Direction),
    Quit,
}

/// The command of a key event. Releases do nothing. The canvas y axis points
/// up, so the up arrow asks for a step towards higher y (`Direction::Down`)
/// and the down arrow for one towards lower y (`Direction::Up`). `q` quits.
pub open spec fn command_of(e: KeyInput) -> Option<Command> {
    if e.kind == KeyEventKind::Release {
        None
    } else {
        match e.code {
            KeyCode::Left => Some(Command::Move(Direction::Left)),
            KeyCode::Right => Some(Command::Move(Direction::Right)),
            KeyCode::Up => Some(Command::Move(Direction::Down)),
            KeyCode::Down => Some(Command::Move(Direction::Up)),
            KeyCode::Char(c) => if c == 'q' {
                Some(Command::Quit)
            } else {
                None
            },
            KeyCode::Other => None,
        }
    }
}

/// The first move asked for from index `i` on, unless a quit comes first.
pub open spec fn first_move_from(events: Seq<KeyInput>, i: int) -> Option<Direction>
    decreases events.len() - i,
{
    if i < 0 || i >= events.len() {
        None
    } else {
        match command_of(events[i]) {
            Some(Command::Move(d)) => Some(d),
            Some(Command::Quit) => None,
            None => first_move_from(events, i + 1),
        }
    }
}

/// The first move asked for in `events`, unless a quit comes first.
pub open spec fn first_move(events: Seq<KeyInput>) -> Option<Direction> {
    first_move_from(events, 0)
}

/// Whether any event of `events` asks to quit.
pub open spec fn has_quit(events: Seq<KeyInput>) -> bool {
    exists|j: int| 0 <= j < events.len() && command_of(#[trigger] events[j]) == Some(Command::Quit)
}

/// The command of a key event.
pub fn command(e: &KeyInput) -> (r: Option<Command>)
    ensures
        r == command_of(*e),
{
    match e.kind {
        KeyEventKind::Release => None,
        _ => match e.code {
            KeyCode::Left => Some(Command::Move(Direction::Left)),
            KeyCode::Right => Some(Command::Move(Direction::Right)),
            KeyCode::Up => Some(Command::Move(Direction::Down)),
            KeyCode::Down => Some(Command::Move(Direction::Up)),
            KeyCode::Char(c) => if c == 'q' {
                Some(Command::Quit)
            } else {
                None
            },
            KeyCode::Other => None,
        },
    }
}

/// Applies the key events of one frame to `character`, in order, and says
/// whether the game should quit. Events after a quit are not applied. Since
/// a move request is ignored while an animation is in flight, at most the
/// first move asked for takes effect.
pub fn handle_inputs(character: &mut Character, events: &Vec<KeyInput>) -> (quit: bool)
    requires
        first_move(events@) matches Some(d) ==> old(character).request_fits(d),
    ensures
        quit == has_quit(events@),
        match first_move(events@) {
            Some(d) => Character::move_requested(&*old(character), &*final(character), d),
            None => {
                &&& final(character).same_pose(&*old(character))
                &&& final(character).spec_animation() == old(character).spec_animation()
            },
        },
{
    let ghost moved: bool = false;
    let mut i: usize = 0;
    while i < events.len()
        invariant
            0 <= i <= events@.len(),
            forall|j: int| 0 <= j < i ==> command_of(#[trigger] events@[j]) != Some(Command::Quit),
            !moved ==> {
                &&& first_move(events@) == first_move_from(events@, i as int)
                &&& character.same_pose(&*old(character))
                &&& character.spec_animation() == old(character).spec_animation()
            },
            moved ==> {
                &&& first_move(events@) matches Some(d)
                &&& Character::move_requested(&*old(character), &*character, d)
                &&& !character.is_idle()
            },
            first_move(events@) matches Some(d) ==> old(character).request_fits(d),
        decreases events@.len() - i,
    {
        match command(&events[i]) {
            Some(Command::Quit) => {
                return true;
            },
            Some(Command::Move(d)) => {
                match d {
                    Direction::Up => character.move_up(),
                    Direction::Down => character.move_down(),
                    Direction::Left => character.move_left(),
                    Direction::Right => character.move_right(),
                }
                proof {
                    moved = true;
                }
            },
            None => {},
        }
        i = i + 1;
    }
    false
}

} // verus!
