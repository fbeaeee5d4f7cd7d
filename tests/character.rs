use grid_animation::character::{
    AnimationState, Character, Direction, ANIM_FRAME_SLICES, SLICES_PER_TARGET_FRAME,
    SLICE_FROM_MOVEMENT_SHIFT, SLICE_FROM_MOVEMENT_TO_BIG,
};
use grid_animation::position::Position;

fn coords(c: &Character) -> (i64, i64, i64) {
    let p = c.position();
    (p.get_x(), p.get_y(), p.get_z())
}

fn slice_of(c: &Character) -> Option<u64> {
    match c.animation_state() {
        AnimationState::Idle => None,
        AnimationState::Animating(a) => Some(a.slice),
    }
}

fn direction_of(c: &Character) -> Option<Direction> {
    match c.animation_state() {
        AnimationState::Idle => None,
        AnimationState::Animating(a) => Some(a.direction),
    }
}

/// Updates at `scale` until idle, giving up after `limit` updates.
fn updates_until_idle(c: &mut Character, scale: u64, limit: usize) -> Option<usize> {
    for n in 1..=limit {
        c.update(scale);
        if slice_of(c).is_none() {
            return Some(n);
        }
    }
    None
}

#[test]
fn derived_constants() {
    assert_eq!(SLICE_FROM_MOVEMENT_SHIFT, 2500);
    assert_eq!(SLICE_FROM_MOVEMENT_TO_BIG, 7500);
    assert_eq!(ANIM_FRAME_SLICES, 10000);
    assert_eq!(SLICES_PER_TARGET_FRAME, 208);
}

#[test]
fn new_character_rests_at_the_corner() {
    let c = Character::new();
    assert_eq!(coords(&c), (5000, 5000, 0));
    assert_eq!(c.width(), 10000);
    assert_eq!(c.height(), 10000);
    assert_eq!(c.speed(), 1000);
    assert!(slice_of(&c).is_none());
}

#[test]
fn move_request_while_idle_starts_animation() {
    let requests: [(fn(&mut Character), Direction, (i64, i64)); 4] = [
        (Character::move_up, Direction::Up, (5000, -5000)),
        (Character::move_down, Direction::Down, (5000, 15000)),
        (Character::move_left, Direction::Left, (-5000, 5000)),
        (Character::move_right, Direction::Right, (15000, 5000)),
    ];
    for (request, d, target) in requests {
        let mut c = Character::new();
        request(&mut c);
        match c.animation_state() {
            AnimationState::Animating(a) => {
                assert_eq!(a.direction, d);
                assert_eq!(a.slice, 0);
                assert_eq!(a.start_position, Position::from_coords(5000, 5000, 0));
                assert_eq!(a.target_position, Position::from_coords(target.0, target.1, 0));
                assert_eq!((a.start_width, a.start_height), (10000, 10000));
                assert_eq!((a.target_width, a.target_height), (10000, 10000));
                assert_eq!((a.start_speed, a.target_speed), (1000, 1000));
            }
            AnimationState::Idle => panic!("no animation started"),
        }
        assert_eq!(coords(&c), (5000, 5000, 0));
        assert_eq!(c.width(), 10000);
    }
}

#[test]
fn move_request_while_animating_is_ignored() {
    let mut c = Character::new();
    c.move_right();
    c.update(1000);
    let before = c.animation_state();
    let pose = (coords(&c), c.width(), c.height());
    c.move_up();
    c.move_left();
    c.move_down();
    c.move_right();
    assert_eq!(direction_of(&c), Some(Direction::Right));
    assert_eq!(slice_of(&c), Some(208));
    match (before, c.animation_state()) {
        (AnimationState::Animating(a), AnimationState::Animating(b)) => {
            assert_eq!(a.start_position, b.start_position);
            assert_eq!(a.target_position, b.target_position);
        }
        _ => panic!("animation lost"),
    }
    assert_eq!((coords(&c), c.width(), c.height()), pose);
}

#[test]
fn animation_finishes_at_target_frame_rate() {
    let mut c = Character::new();
    c.move_right();
    assert_eq!(updates_until_idle(&mut c, 1000, 1000), Some(49));
}

#[test]
fn faster_scale_finishes_in_fewer_updates() {
    let mut counts = Vec::new();
    for scale in [3u64, 500, 1000, 2000, 5000, 100_000] {
        let mut c = Character::new();
        c.move_left();
        counts.push(updates_until_idle(&mut c, scale, 100_000).unwrap());
    }
    assert_eq!(counts, vec![10000, 97, 49, 25, 10, 1]);
    for w in counts.windows(2) {
        assert!(w[1] <= w[0]);
    }
}

#[test]
fn zero_scale_never_finishes() {
    let mut c = Character::new();
    c.move_down();
    assert_eq!(updates_until_idle(&mut c, 0, 500), None);
    assert_eq!(slice_of(&c), Some(0));
}

#[test]
fn slice_advance_is_rounded_and_clamped() {
    let mut c = Character::new();
    c.move_up();
    c.update(1500);
    assert_eq!(slice_of(&c), Some(312));
    c.update(2);
    assert_eq!(slice_of(&c), Some(312));
    c.update(3);
    assert_eq!(slice_of(&c), Some(313));
    c.update(46_000);
    assert_eq!(slice_of(&c), Some(313 + 9568));
    c.update(1000);
    assert_eq!(slice_of(&c), None);
    assert_eq!(coords(&c), (5000, -5000, 0));
}

#[test]
fn size_shrinks_stays_small_then_grows() {
    let mut c = Character::new();
    c.move_right();
    let mut last = (c.width(), c.height());
    loop {
        c.update(1000);
        let size = (c.width(), c.height());
        match slice_of(&c) {
            Some(s) if s < SLICE_FROM_MOVEMENT_SHIFT => {
                assert!(size.0 <= last.0 && size.1 <= last.1);
            }
            Some(s) if s < SLICE_FROM_MOVEMENT_TO_BIG => {
                assert_eq!(size, (3000, 3000));
            }
            Some(_) => {
                assert!(size.0 >= last.0 && size.1 >= last.1);
            }
            None => {
                assert_eq!(size, (10000, 10000));
                break;
            }
        }
        assert!((3000..=10000).contains(&size.0));
        assert!((3000..=10000).contains(&size.1));
        last = size;
    }
}

#[test]
fn pose_at_exact_slices() {
    let mut c = Character::new();
    c.move_right();
    c.update(1000);
    assert_eq!(slice_of(&c), Some(208));
    assert_eq!((c.width(), c.height()), (9000, 9000));
    assert_eq!(coords(&c), (5000, 5000, 0));
    for _ in 0..12 {
        c.update(1000);
    }
    assert_eq!(slice_of(&c), Some(2704));
    assert_eq!((c.width(), c.height()), (3000, 3000));
    assert_eq!(coords(&c), (5408, 5000, 0));
    for _ in 0..24 {
        c.update(1000);
    }
    assert_eq!(slice_of(&c), Some(7696));
    assert_eq!((c.width(), c.height()), (4000, 4000));
    assert_eq!(coords(&c), (15000, 5000, 0));
}

#[test]
fn right_step_from_thirty_ends_at_forty() {
    let mut c = Character::new();
    c.set_position(Position::from_coords(30000, 20000, 0));
    c.move_right();
    assert!(updates_until_idle(&mut c, 1000, 1000).is_some());
    assert_eq!(coords(&c), (40000, 20000, 0));
    assert_eq!((c.width(), c.height()), (10000, 10000));
}

#[test]
fn each_direction_moves_one_grid_step() {
    let cases: [(fn(&mut Character), (i64, i64)); 4] = [
        (Character::move_up, (50000, 40000)),
        (Character::move_down, (50000, 60000)),
        (Character::move_left, (40000, 50000)),
        (Character::move_right, (60000, 50000)),
    ];
    for (request, end) in cases {
        let mut c = Character::new();
        c.set_position(Position::from_coords(50000, 50000, 7));
        request(&mut c);
        assert_eq!(updates_until_idle(&mut c, 2500, 100), Some(20));
        assert_eq!(coords(&c), (end.0, end.1, 7));
    }
}

#[test]
fn zero_scale_update_changes_nothing() {
    let mut c = Character::new();
    c.move_down();
    for _ in 0..20 {
        c.update(700);
        let before = (slice_of(&c), coords(&c), c.width(), c.height());
        c.update(0);
        assert_eq!((slice_of(&c), coords(&c), c.width(), c.height()), before);
    }
}

#[test]
fn update_while_idle_changes_nothing() {
    let mut c = Character::new();
    c.update(100_000);
    assert_eq!(coords(&c), (5000, 5000, 0));
    assert_eq!((c.width(), c.height()), (10000, 10000));
    assert!(slice_of(&c).is_none());
}

#[test]
fn set_position_is_ignored_while_animating() {
    let mut c = Character::new();
    c.move_left();
    c.set_position(Position::from_coords(1, 2, 3));
    assert_eq!(coords(&c), (5000, 5000, 0));
    c.update(100_000);
    c.set_position(Position::from_coords(1, 2, 3));
    assert_eq!(coords(&c), (1, 2, 3));
}
