use vstd::prelude::*;

verus! {

/// A point with three integer coordinates, in thousandths of a canvas unit.
///
/// A value type: it is copied, never shared, and changed only through its
/// setters and incrementers.
#[derive(Clone, Copy, Debug, PartialEq, Eq)]
pub struct Position {
    x: i64,
    y: i64,
    z: i64,
}

/// The mathematical value of a position: its coordinates as integers.
pub type Point = (int, int, int);

impl View for Position {
    type V = Point;

    closed spec fn view(&self) -> Point {
        (self.x as int, self.y as int, self.z as int)
    }
}

/// Whether `v` is representable as a coordinate.
pub open spec fn in_coord_range(v: int) -> bool {
    i64::MIN <= v <= i64::MAX
}

impl Position {
    /// Every coordinate of a position is representable.
    pub proof fn lemma_in_range(&self)
        ensures
            in_coord_range(self@.0),
            in_coord_range(self@.1),
            in_coord_range(self@.2),
    {
    }

    /// The origin.
    pub fn new() -> (p: Position)
        ensures
            p@ == (0int, 0int, 0int),
    {
        Position { x: 0, y: 0, z: 0 }
    }

    /// A position with the given coordinates.
    pub fn from_coords(x: i64, y: i64, z: i64) -> (p: Position)
        ensures
            p@ == (x as int, y as int, z as int),
    {
        Position { x, y, z }
    }

    pub fn incr_x(&mut self, val: i64)
        requires
            in_coord_range(old(self)@.0 + val),
        ensures
            final(self)@ == (old(self)@.0 + val, old(self)@.1, old(self)@.2),
    {
        self.x = self.x + val;
    }

    pub fn decr_x(&mut self, val: i64)
        requires
            in_coord_range(old(self)@.0 - val),
        ensures
            final(self)@ == (old(self)@.0 - val, old(self)@.1, old(self)@.2),
    {
        self.x = self.x - val;
    }

    pub fn incr_y(&mut self, val: i64)
        requires
            in_coord_range(old(self)@.1 + val),
        ensures
            final(self)@ == (old(self)@.0, old(self)@.1 + val, old(self)@.2),
    {
        self.y = self.y + val;
    }

    pub fn decr_y(&mut self, val: i64)
        requires
            in_coord_range(old(self)@.1 - val),
        ensures
            final(self)@ == (old(self)@.0, old(self)@.1 - val, old(self)@.2),
    {
        self.y = self.y - val;
    }

    pub fn incr_z(&mut self, val: i64)
        requires
            in_coord_range(old(self)@.2 + val),
        ensures
            final(self)@ == (old(self)@.0, old(self)@.1, old(self)@.2 + val),
    {
        self.z = self.z + val;
    }

    pub fn decr_z(&mut self, val: i64)
        requires
            in_coord_range(old(self)@.2 - val),
        ensures
            final(self)@ == (old(self)@.0, old(self)@.1, old(self)@.2 - val),
    {
        self.z = self.z - val;
    }

    pub fn get_x(&self) -> (r: i64)
        ensures
            r == self@.0,
    {
        self.x
    }

    pub fn get_y(&self) -> (r: i64)
        ensures
            r == self@.1,
    {
        self.y
    }

    pub fn get_z(&self) -> (r: i64)
        ensures
            r == self@.2,
    {
        self.z
    }

    pub fn set_x(&mut self, val: i64)
        ensures
            final(self)@ == (val as int, old(self)@.1, old(self)@.2),
    {
        self.x = val;
    }

    pub fn set_y(&mut self, val: i64)
        ensures
            final(self)@ == (old(self)@.0, val as int, old(self)@.2),
    {
        self.y = val;
    }

    pub fn set_z(&mut self, val: i64)
        ensures
            final(self)@ == (old(self)@.0, old(self)@.1, val as int),
    {
        self.z = val;
    }

    /// Sets the three coordinates at once, in the order x, y, z.
    pub fn set(&mut self, val: [i64; 3])
        ensures
            final(self)@ == (val[0] as int, val[1] as int, val[2] as int),
    {
        self.set_x(val[0]);
        self.set_y(val[1]);
        self.set_z(val[2]);
    }
}

} // verus!
