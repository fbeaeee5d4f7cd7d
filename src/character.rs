use vstd::prelude::*;

use crate::frame_data::{SCALE_ONE, TARGET_FPS};
use crate::position::{in_coord_range, Point, Position};

verus! {

/// Fixed-point resolution of one animation: its progress runs from slice 0
/// to this terminal slice.
pub const ANIM_FRAME_SLICES: u64 = 10000;

/// Duration of the shrink phase, in milliseconds.
pub const ANIM_TIME_MOVEMENT_TO_SMALL_MS: u64 = 200;

/// Duration of the move phase, in milliseconds.
pub const ANIM_TIME_MOVEMENT_SHIFT_MS: u64 = 400;

/// Duration of the grow phase, in milliseconds.
pub const ANIM_TIME_MOVEMENT_TO_BIG_MS: u64 = 200;

/// Duration of a whole animation, in milliseconds.
pub const ANIM_TIME_FULL_MS: u64 = ANIM_TIME_MOVEMENT_TO_SMALL_MS + ANIM_TIME_MOVEMENT_SHIFT_MS
    + ANIM_TIME_MOVEMENT_TO_BIG_MS;

/// First slice of the shrink phase.
pub const SLICE_FROM_MOVEMENT_TO_SMALL: u64 = 0;

/// First slice of the move phase.
#[verifier::nonlinear]
pub const SLICE_FROM_MOVEMENT_SHIFT: u64 = SLICE_FROM_MOVEMENT_TO_SMALL + ANIM_TIME_MOVEMENT_TO_SMALL_MS
    * ANIM_FRAME_SLICES / ANIM_TIME_FULL_MS;

/// First slice of the grow phase.
#[verifier::nonlinear]
pub const SLICE_FROM_MOVEMENT_TO_BIG: u64 = SLICE_FROM_MOVEMENT_SHIFT + ANIM_TIME_MOVEMENT_SHIFT_MS
    * ANIM_FRAME_SLICES / ANIM_TIME_FULL_MS;

/// Slices that one frame of the target duration advances an animation: the
/// target frame duration over the duration of one slice, rounded to nearest.
#[verifier::nonlinear]
pub const SLICES_PER_TARGET_FRAME: u64 = (2 * 1000 * ANIM_FRAME_SLICES + TARGET_FPS * ANIM_TIME_FULL_MS)
    / (2 * TARGET_FPS * ANIM_TIME_FULL_MS);

/// Lengths are counted in thousandths of a canvas unit.
pub const UNIT: i64 = 1000;

/// Width, in whole canvas units, at the middle of an animation.
pub const WIDTH_SMALL: i64 = 3;

/// Height, in whole canvas units, at the middle of an animation.
pub const HEIGHT_SMALL: i64 = 3;

/// Width, in whole canvas units, at rest.
pub const WIDTH_BIG: i64 = 10;

/// Height, in whole canvas units, at rest.
pub const HEIGHT_BIG: i64 = 10;

/// One grid step, in whole canvas units: the character moves on a grid of its
/// own resting width.
pub const MOVEMENT_UNIT: i64 = WIDTH_BIG;

/// One grid step, in thousandths of a canvas unit.
#[verifier::nonlinear]
pub const MOVEMENT_LEN: i64 = MOVEMENT_UNIT * UNIT;

/// A direction of one grid step. `Up` lowers the y coordinate and `Down`
/// raises it.
#[derive(Clone, Copy, Debug, PartialEq, Eq)]
pub enum Direction {
    Up,
    Down,
    Left,
    Right,
}

/// One animation in flight: its direction and progress, with the pose it
/// started from and the pose it ends in.
#[derive(Clone, Copy, Debug)]
pub struct Animation {
    pub direction: Direction,
    /// Progress, in slices.
    pub slice: u64,
    pub start_position: Position,
    pub start_speed: i64,
    pub start_width: i64,
    pub start_height: i64,
    pub target_position: Position,
    pub target_speed: i64,
    pub target_width: i64,
    pub target_height: i64,
}

/// At most one animation is in flight.
#[derive(Clone, Copy, Debug)]
pub enum AnimationState {
    Idle,
    Animating(Animation),
}

/// `p` moved by `k` along the axis and sense of `d`.
pub open spec fn step(p: Point, d: Direction, k: int) -> Point {
    match d {
        Direction::Up => (p.0, p.1 - k, p.2),
        Direction::Down => (p.0, p.1 + k, p.2),
        Direction::Left => (p.0 - k, p.1, p.2),
        Direction::Right => (p.0 + k, p.1, p.2),
    }
}

/// Whether every coordinate of `p` is representable.
pub open spec fn point_in_range(p: Point) -> bool {
    in_coord_range(p.0) && in_coord_range(p.1) && in_coord_range(p.2)
}

/// Whether one grid step from `p` towards `d` stays representable.
pub open spec fn step_fits(p: Point, d: Direction) -> bool {
    point_in_range(step(p, d, MOVEMENT_LEN as int))
}

/// `a / b` rounded to nearest, halves up (for `a >= 0`, `b > 0`).
pub open spec fn round_div(a: int, b: int) -> int {
    (2 * a + b) / (2 * b)
}

/// Slices that a frame of time-scale `scale` (in thousandths) advances.
pub open spec fn frame_slices(scale: int) -> int {
    round_div(SLICES_PER_TARGET_FRAME * scale, SCALE_ONE as int)
}

/// The slice after one update at time-scale `scale`: clamped at the
/// terminal slice, never wrapped.
pub open spec fn next_slice(slice: int, scale: int) -> int {
    if slice + frame_slices(scale) >= ANIM_FRAME_SLICES {
        ANIM_FRAME_SLICES as int
    } else {
        slice + frame_slices(scale)
    }
}

/// A size, in thousandths, at `slice` of an animation between whole-unit
/// sizes `small` and `big`: from `big` down to `small` over the shrink phase,
/// `small` over the move phase, back up to `big` over the grow phase, each
/// time rounded to a whole unit.
pub open spec fn size_at(small: int, big: int, slice: int) -> int {
    if slice >= SLICE_FROM_MOVEMENT_TO_BIG {
        UNIT * (small + round_div(
            (big - small) * (slice - SLICE_FROM_MOVEMENT_TO_BIG),
            ANIM_FRAME_SLICES - SLICE_FROM_MOVEMENT_TO_BIG,
        ))
    } else if slice >= SLICE_FROM_MOVEMENT_SHIFT {
        UNIT * small
    } else {
        UNIT * (small + round_div(
            (big - small) * (SLICE_FROM_MOVEMENT_SHIFT - slice),
            SLICE_FROM_MOVEMENT_SHIFT - SLICE_FROM_MOVEMENT_TO_SMALL,
        ))
    }
}

/// The width, in thousandths, at `slice` of an animation.
pub open spec fn width_at(slice: int) -> int {
    size_at(WIDTH_SMALL as int, WIDTH_BIG as int, slice)
}

/// The height, in thousandths, at `slice` of an animation.
pub open spec fn height_at(slice: int) -> int {
    size_at(HEIGHT_SMALL as int, HEIGHT_BIG as int, slice)
}

/// How far the move phase has carried the character at `slice`
/// (in thousandths, rounded down).
pub open spec fn move_offset(slice: int) -> int {
    MOVEMENT_LEN * (slice - SLICE_FROM_MOVEMENT_SHIFT) / ((SLICE_FROM_MOVEMENT_TO_BIG
        - SLICE_FROM_MOVEMENT_SHIFT) as int)
}

/// The position at `slice` of an animation that started at `start` towards
/// `d`: `start` through the shrink phase, moving linearly over the move
/// phase, one grid step away from then on.
pub open spec fn position_at(start: Point, d: Direction, slice: int) -> Point {
    if slice >= SLICE_FROM_MOVEMENT_TO_BIG {
        step(start, d, MOVEMENT_LEN as int)
    } else if slice >= SLICE_FROM_MOVEMENT_SHIFT {
        step(start, d, move_offset(slice))
    } else {
        start
    }
}

/// The sprite: its live pose and its animation state.
///
/// The position is the centre of the rectangle, so the rectangle shrinks
/// and grows about a fixed centre.
pub struct Character {
    position: Position,
    speed: i64,
    width: i64,
    height: i64,
    animation: AnimationState,
}

impl Character {
    /// At rest the sprite has its big size; while animating, its pose is the
    /// one that its animation prescribes at the current slice.
    #[verifier::type_invariant]
    spec fn pose_follows_animation(&self) -> bool {
        match self.animation {
            AnimationState::Idle => self.width == UNIT * WIDTH_BIG && self.height == UNIT * HEIGHT_BIG,
            AnimationState::Animating(a) => {
                &&& a.slice < ANIM_FRAME_SLICES
                &&& a.start_width == UNIT * WIDTH_BIG
                &&& a.start_height == UNIT * HEIGHT_BIG
                &&& a.target_width == a.start_width
                &&& a.target_height == a.start_height
                &&& a.start_speed == self.speed
                &&& a.target_speed == self.speed
                &&& a.target_position@ == step(a.start_position@, a.direction, MOVEMENT_LEN as int)
                &&& self.position@ == position_at(a.start_position@, a.direction, a.slice as int)
                &&& self.width == width_at(a.slice as int)
                &&& self.height == height_at(a.slice as int)
            },
        }
    }

    /// The live position (the centre of the sprite).
    pub closed spec fn spec_position(&self) -> Point {
        self.position@
    }

    /// The speed, in thousandths of a unit per move request.
    pub closed spec fn spec_speed(&self) -> int {
        self.speed as int
    }

    /// The live width, in thousandths.
    pub closed spec fn spec_width(&self) -> int {
        self.width as int
    }

    /// The live height, in thousandths.
    pub closed spec fn spec_height(&self) -> int {
        self.height as int
    }

    /// The animation state.
    pub closed spec fn spec_animation(&self) -> AnimationState {
        self.animation
    }

    /// Whether no animation is in flight.
    pub open spec fn is_idle(&self) -> bool {
        self.spec_animation() is Idle
    }

    /// Whether a move request towards `d` can be served: while idle, the grid
    /// step it starts must stay representable.
    pub open spec fn request_fits(&self, d: Direction) -> bool {
        self.is_idle() ==> step_fits(self.spec_position(), d)
    }

    /// The pose (position, size, speed) is the same in `self` and `other`.
    pub open spec fn same_pose(&self, other: &Character) -> bool {
        &&& self.spec_position() == other.spec_position()
        &&& self.spec_speed() == other.spec_speed()
        &&& self.spec_width() == other.spec_width()
        &&& self.spec_height() == other.spec_height()
    }

    /// What a move request towards `d` does: from idle it starts an animation
    /// towards `d` at slice 0, taking the current pose as its start and that
    /// pose one grid step on as its target; while animating it changes
    /// nothing.
    pub open spec fn move_requested(before: &Character, after: &Character, d: Direction) -> bool {
        &&& after.same_pose(before)
        &&& if before.is_idle() {
            &&& after.spec_animation() matches AnimationState::Animating(a)
            &&& a.direction == d
            &&& a.slice == 0
            &&& a.start_position@ == before.spec_position()
            &&& a.start_speed == before.spec_speed()
            &&& a.start_width == before.spec_width()
            &&& a.start_height == before.spec_height()
            &&& a.target_position@ == step(before.spec_position(), d, MOVEMENT_LEN as int)
            &&& a.target_speed == before.spec_speed()
            &&& a.target_width == before.spec_width()
            &&& a.target_height == before.spec_height()
        } else {
            after.spec_animation() == before.spec_animation()
        }
    }

    /// What one frame of time-scale `scale` does: nothing while idle; while
    /// animating, the slice advances to `next_slice`, the pose becomes the
    /// one prescribed at that slice, and the animation ends exactly when the
    /// terminal slice is reached.
    pub open spec fn updated(before: &Character, after: &Character, scale: int) -> bool {
        match before.spec_animation() {
            AnimationState::Idle => {
                &&& after.same_pose(before)
                &&& after.is_idle()
            },
            AnimationState::Animating(a) => {
                let s = next_slice(a.slice as int, scale);
                &&& after.spec_position() == position_at(a.start_position@, a.direction, s)
                &&& after.spec_width() == width_at(s)
                &&& after.spec_height() == height_at(s)
                &&& after.spec_speed() == before.spec_speed()
                &&& if s == ANIM_FRAME_SLICES {
                    after.is_idle()
                } else {
                    after.spec_animation() == AnimationState::Animating(Animation { slice: s as u64, ..a })
                }
            },
        }
    }
}

/// The values that the animation constants work out to.
pub proof fn lemma_animation_constants()
    ensures
        ANIM_TIME_FULL_MS == 800,
        SLICE_FROM_MOVEMENT_SHIFT == 2500,
        SLICE_FROM_MOVEMENT_TO_BIG == 7500,
        SLICES_PER_TARGET_FRAME == 208,
        MOVEMENT_LEN == 10000,
{
    assert(ANIM_TIME_FULL_MS == 800);
    assert(200int * 10000int / 800int == 2500) by (nonlinear_arith);
    assert(SLICE_FROM_MOVEMENT_SHIFT == 2500);
    assert(400int * 10000int / 800int == 5000) by (nonlinear_arith);
    assert(SLICE_FROM_MOVEMENT_TO_BIG == 7500);
    assert((2int * 1000int * 10000int + 60int * 800int) / (2int * 60int * 800int) == 208) by (nonlinear_arith);
    assert(SLICES_PER_TARGET_FRAME == 208);
    assert(MOVEMENT_LEN == 10000);
}

/// The move phase carries the character between zero and one grid step.
proof fn lemma_move_offset_bounds(slice: int)
    requires
        SLICE_FROM_MOVEMENT_SHIFT <= slice <= SLICE_FROM_MOVEMENT_TO_BIG,
    ensures
        0 <= move_offset(slice) <= MOVEMENT_LEN,
{
    lemma_animation_constants();
    assert(0 <= 10000 * (slice - 2500) / 5000 <= 10000) by (nonlinear_arith)
        requires
            2500 <= slice <= 7500,
    ;
}

/// `a / b` rounded to nearest, halves up.
fn round_div_exec(a: i64, b: i64) -> (r: i64)
    requires
        0 <= a <= 1000 * 1000,
        0 < b <= 1000 * 1000,
    ensures
        r == round_div(a as int, b as int),
{
    (2 * a + b) / (2 * b)
}

/// The size, in thousandths, at `slice`, between whole-unit sizes `small`
/// and `big`.
fn size_at_exec(small: i64, big: i64, slice: u64) -> (r: i64)
    requires
        0 <= small <= big <= 100,
        slice <= ANIM_FRAME_SLICES,
    ensures
        r == size_at(small as int, big as int, slice as int),
{
    proof {
        lemma_animation_constants();
        lemma_size_bounds(small as int, big as int, slice as int);
    }
    if slice >= SLICE_FROM_MOVEMENT_TO_BIG {
        let d = (slice - SLICE_FROM_MOVEMENT_TO_BIG) as i64;
        proof {
            assert((big - small) * d <= 100 * 10000) by (nonlinear_arith)
                requires
                    0 <= big - small <= 100,
                    0 <= d <= 10000,
            ;
        }
        UNIT * (small + round_div_exec(
            (big - small) * d,
            (ANIM_FRAME_SLICES - SLICE_FROM_MOVEMENT_TO_BIG) as i64,
        ))
    } else if slice >= SLICE_FROM_MOVEMENT_SHIFT {
        UNIT * small
    } else {
        let d = (SLICE_FROM_MOVEMENT_SHIFT - slice) as i64;
        proof {
            assert((big - small) * d <= 100 * 10000) by (nonlinear_arith)
                requires
                    0 <= big - small <= 100,
                    0 <= d <= 10000,
            ;
        }
        UNIT * (small + round_div_exec(
            (big - small) * d,
            (SLICE_FROM_MOVEMENT_SHIFT - SLICE_FROM_MOVEMENT_TO_SMALL) as i64,
        ))
    }
}

/// `p` moved by `k` along the axis and sense of `d`.
fn step_exec(p: Position, d: Direction, k: i64) -> (r: Position)
    requires
        point_in_range(step(p@, d, k as int)),
    ensures
        r@ == step(p@, d, k as int),
{
    match d {
        Direction::Up => Position::from_coords(p.get_x(), p.get_y() - k, p.get_z()),
        Direction::Down => Position::from_coords(p.get_x(), p.get_y() + k, p.get_z()),
        Direction::Left => Position::from_coords(p.get_x() - k, p.get_y(), p.get_z()),
        Direction::Right => Position::from_coords(p.get_x() + k, p.get_y(), p.get_z()),
    }
}

/// Slices that a frame of time-scale `scale` advances.
fn frame_slices_exec(scale: u64) -> (r: u128)
    ensures
        r == frame_slices(scale as int),
{
    let spf = SLICES_PER_TARGET_FRAME as u128;
    proof {
        lemma_animation_constants();
        assert(spf * scale <= 1000 * u64::MAX) by (nonlinear_arith)
            requires
                spf == 208,
                scale <= u64::MAX,
        ;
    }
    (2 * (spf * (scale as u128)) + SCALE_ONE as u128) / (2 * SCALE_ONE as u128)
}

/// Bounds of a size: between its small and big sizes.
pub proof fn lemma_size_bounds(small: int, big: int, slice: int)
    requires
        0 <= small <= big,
        0 <= slice <= ANIM_FRAME_SLICES,
    ensures
        UNIT * small <= size_at(small, big, slice) <= UNIT * big,
{
    lemma_animation_constants();
    let n = big - small;
    if slice >= SLICE_FROM_MOVEMENT_TO_BIG {
        let b = (ANIM_FRAME_SLICES - SLICE_FROM_MOVEMENT_TO_BIG) as int;
        let a = n * (slice - SLICE_FROM_MOVEMENT_TO_BIG);
        assert(0 <= a <= n * b) by (nonlinear_arith)
            requires
                0 <= n,
                0 <= slice - SLICE_FROM_MOVEMENT_TO_BIG <= b,
                a == n * (slice - SLICE_FROM_MOVEMENT_TO_BIG),
        ;
        lemma_round_div_bounds(a, b, n);
    } else if slice < SLICE_FROM_MOVEMENT_SHIFT {
        let b = (SLICE_FROM_MOVEMENT_SHIFT - SLICE_FROM_MOVEMENT_TO_SMALL) as int;
        let a = n * (SLICE_FROM_MOVEMENT_SHIFT - slice);
        assert(0 <= a <= n * b) by (nonlinear_arith)
            requires
                0 <= n,
                0 <= SLICE_FROM_MOVEMENT_SHIFT - slice <= b,
                a == n * (SLICE_FROM_MOVEMENT_SHIFT - slice),
        ;
        lemma_round_div_bounds(a, b, n);
    }
}

/// A rounded quotient of `a <= n * b` by `b` lies in `[0, n]`.
proof fn lemma_round_div_bounds(a: int, b: int, n: int)
    requires
        0 <= a <= n * b,
        0 < b,
    ensures
        0 <= round_div(a, b) <= n,
{
    assert(0 <= (2 * a + b) / (2 * b) <= n) by (nonlinear_arith)
        requires
            0 <= a <= n * b,
            0 < b,
    ;
}

impl Character {
    /// A sprite at rest, at its big size, with its rectangle touching the
    /// origin corner of the canvas.
    pub fn new() -> (c: Character)
        ensures
            c.is_idle(),
            c.spec_position() == (UNIT * WIDTH_BIG / 2, UNIT * WIDTH_BIG / 2, 0int),
            c.spec_speed() == UNIT,
            c.spec_width() == UNIT * WIDTH_BIG,
            c.spec_height() == UNIT * HEIGHT_BIG,
    {
        let width = UNIT * WIDTH_BIG;
        Character {
            position: Position::from_coords(width / 2, width / 2, 0),
            speed: UNIT,
            width,
            height: UNIT * HEIGHT_BIG,
            animation: AnimationState::Idle,
        }
    }

    fn anim_in_progress(&self) -> (r: bool)
        ensures
            r == !self.is_idle(),
    {
        match self.animation {
            AnimationState::Idle => false,
            AnimationState::Animating(_) => true,
        }
    }

    /// Starts an animation towards `d` from the current pose.
    fn start_animation(&mut self, d: Direction)
        requires
            old(self).is_idle(),
            step_fits(old(self).spec_position(), d),
        ensures
            Character::move_requested(&*old(self), &*final(self), d),
    {
        proof {
            use_type_invariant(&*self);
        }
        let start = self.position;
        let target = step_exec(start, d, MOVEMENT_LEN);
        let animation = Animation {
            direction: d,
            slice: 0,
            start_position: start,
            start_speed: self.speed,
            start_width: self.width,
            start_height: self.height,
            target_position: target,
            target_speed: self.speed,
            target_width: self.width,
            target_height: self.height,
        };
        proof {
            lemma_animation_constants();
            assert(round_div(7int * 2500int, 2500int) == 7);
            assert(width_at(0) == UNIT * WIDTH_BIG);
            assert(height_at(0) == UNIT * HEIGHT_BIG);
        }
        *self = Character {
            position: start,
            speed: self.speed,
            width: self.width,
            height: self.height,
            animation: AnimationState::Animating(animation),
        };
    }

    /// Serves a move request towards `d`: starts an animation when idle and
    /// is ignored while one is in flight.
    fn request_move(&mut self, d: Direction)
        requires
            old(self).request_fits(d),
        ensures
            Character::move_requested(&*old(self), &*final(self), d),
    {
        if !self.anim_in_progress() {
            self.start_animation(d);
        }
    }

    /// Requests one grid step up (towards lower y).
    pub fn move_up(&mut self)
        requires
            old(self).request_fits(Direction::Up),
        ensures
            Character::move_requested(&*old(self), &*final(self), Direction::Up),
    {
        self.request_move(Direction::Up);
    }

    /// Requests one grid step down (towards higher y).
    pub fn move_down(&mut self)
        requires
            old(self).request_fits(Direction::Down),
        ensures
            Character::move_requested(&*old(self), &*final(self), Direction::Down),
    {
        self.request_move(Direction::Down);
    }

    /// Requests one grid step left (towards lower x).
    pub fn move_left(&mut self)
        requires
            old(self).request_fits(Direction::Left),
        ensures
            Character::move_requested(&*old(self), &*final(self), Direction::Left),
    {
        self.request_move(Direction::Left);
    }

    /// Requests one grid step right (towards higher x).
    pub fn move_right(&mut self)
        requires
            old(self).request_fits(Direction::Right),
        ensures
            Character::move_requested(&*old(self), &*final(self), Direction::Right),
    {
        self.request_move(Direction::Right);
    }

    /// Advances the animation by one frame of time-scale `scale` (in
    /// thousandths of the target frame duration). Does nothing while idle.
    pub fn update(&mut self, scale: u64)
        ensures
            Character::updated(&*old(self), &*final(self), scale as int),
            scale == 0 ==> final(self).same_pose(&*old(self)),
            scale == 0 ==> final(self).spec_animation() == old(self).spec_animation(),
    {
        proof {
            use_type_invariant(&*self);
            lemma_animation_constants();
        }
        match self.animation {
            AnimationState::Idle => {},
            AnimationState::Animating(a) => {
                let advance = frame_slices_exec(scale);
                let slice: u64 = if advance >= (ANIM_FRAME_SLICES - a.slice) as u128 {
                    ANIM_FRAME_SLICES
                } else {
                    a.slice + advance as u64
                };
                let position = if slice >= SLICE_FROM_MOVEMENT_TO_BIG {
                    a.target_position
                } else if slice >= SLICE_FROM_MOVEMENT_SHIFT {
                    let offset = MOVEMENT_LEN * ((slice - SLICE_FROM_MOVEMENT_SHIFT) as i64) / ((
                    SLICE_FROM_MOVEMENT_TO_BIG - SLICE_FROM_MOVEMENT_SHIFT) as i64);
                    proof {
                        lemma_move_offset_bounds(slice as int);
                        a.start_position.lemma_in_range();
                        a.target_position.lemma_in_range();
                    }
                    step_exec(a.start_position, a.direction, offset)
                } else {
                    a.start_position
                };
                let width = size_at_exec(WIDTH_SMALL, WIDTH_BIG, slice);
                let height = size_at_exec(HEIGHT_SMALL, HEIGHT_BIG, slice);
                let animation = if slice == ANIM_FRAME_SLICES {
                    AnimationState::Idle
                } else {
                    AnimationState::Animating(Animation { slice, ..a })
                };
                *self = Character { position, speed: self.speed, width, height, animation };
            },
        }
    }

    /// Places the sprite at `position`. Ignored while an animation is in
    /// flight, since the animation then owns the position.
    pub fn set_position(&mut self, position: Position)
        ensures
            old(self).is_idle() ==> final(self).spec_position() == position@,
            !old(self).is_idle() ==> final(self).spec_position() == old(self).spec_position(),
            final(self).spec_speed() == old(self).spec_speed(),
            final(self).spec_width() == old(self).spec_width(),
            final(self).spec_height() == old(self).spec_height(),
            final(self).spec_animation() == old(self).spec_animation(),
    {
        proof {
            use_type_invariant(&*self);
        }
        if !self.anim_in_progress() {
            *self = Character {
                position,
                speed: self.speed,
                width: self.width,
                height: self.height,
                animation: AnimationState::Idle,
            };
        }
    }

    /// The live position (the centre of the sprite).
    pub fn position(&self) -> (r: Position)
        ensures
            r@ == self.spec_position(),
    {
        self.position
    }

    /// The speed, in thousandths of a unit per move request.
    pub fn speed(&self) -> (r: i64)
        ensures
            r == self.spec_speed(),
    {
        self.speed
    }

    /// The live width, in thousandths; always between the small and the big
    /// width.
    pub fn width(&self) -> (r: i64)
        ensures
            r == self.spec_width(),
            UNIT * WIDTH_SMALL <= r <= UNIT * WIDTH_BIG,
    {
        proof {
            use_type_invariant(self);
            if let AnimationState::Animating(a) = self.animation {
                lemma_size_bounds(WIDTH_SMALL as int, WIDTH_BIG as int, a.slice as int);
            }
        }
        self.width
    }

    /// The live height, in thousandths; always between the small and the big
    /// height.
    pub fn height(&self) -> (r: i64)
        ensures
            r == self.spec_height(),
            UNIT * HEIGHT_SMALL <= r <= UNIT * HEIGHT_BIG,
    {
        proof {
            use_type_invariant(self);
            if let AnimationState::Animating(a) = self.animation {
                lemma_size_bounds(HEIGHT_SMALL as int, HEIGHT_BIG as int, a.slice as int);
            }
        }
        self.height
    }

    /// The animation state.
    pub fn animation_state(&self) -> (r: AnimationState)
        ensures
            r == self.spec_animation(),
    {
        self.animation
    }
}

} // verus!
