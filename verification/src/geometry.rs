//! Places in the world and the distance between them.

use vstd::prelude::*;

verus! {

/// Thousandths in one world unit.
pub const UNIT: i32 = 1_000;

/// The world reaches this far from the origin along each axis, in
/// thousandths of a unit.
pub const WORLD_LIMIT: i32 = 1_000_000_000;

/// A place in the world, in thousandths of a unit, within the world's limits.
#[derive(Clone, Copy, Debug, PartialEq, Eq, Structural, Hash)]
pub struct Position {
    x: i32,
    y: i32,
}

/// `v` lies within the world's limits.
pub open spec fn in_world(v: int) -> bool {
    -WORLD_LIMIT <= v <= WORLD_LIMIT
}

/// The largest multiple of a whole unit that is not above `v`.
pub open spec fn floor_unit(v: int) -> int {
    v - v % (UNIT as int)
}

/// The square of the distance between two places.
pub open spec fn distance_squared(a: Position, b: Position) -> int {
    (a.spec_x() - b.spec_x()) * (a.spec_x() - b.spec_x()) + (a.spec_y() - b.spec_y()) * (a.spec_y()
        - b.spec_y())
}

/// The two places are less than `range` apart.
pub open spec fn within_range(a: Position, b: Position, range: u32) -> bool {
    distance_squared(a, b) < range * range
}

impl Position {
    #[verifier::type_invariant]
    pub open spec fn inv(self) -> bool {
        self.well_formed()
    }

    pub closed spec fn spec_x(self) -> i32 {
        self.x
    }

    pub closed spec fn spec_y(self) -> i32 {
        self.y
    }

    /// Both coordinates lie within the world's limits.
    pub open spec fn well_formed(self) -> bool {
        in_world(self.spec_x() as int) && in_world(self.spec_y() as int)
    }

    /// The place with the given coordinates, unless it lies outside the
    /// world.
    pub fn new(x: i32, y: i32) -> (position: Option<Position>)
        ensures
            position is Some <==> in_world(x as int) && in_world(y as int),
            position matches Some(p) ==> p.spec_x() == x && p.spec_y() == y && p.well_formed(),
    {
        if -WORLD_LIMIT <= x && x <= WORLD_LIMIT && -WORLD_LIMIT <= y && y <= WORLD_LIMIT {
            Some(Position { x, y })
        } else {
            None
        }
    }

    /// The origin of the world.
    pub fn zero() -> (position: Position)
        ensures
            position.spec_x() == 0,
            position.spec_y() == 0,
            position.well_formed(),
    {
        Position { x: 0, y: 0 }
    }

    #[verifier::when_used_as_spec(spec_x)]
    pub fn x(self) -> (x: i32)
        ensures
            x == self.spec_x(),
            self.well_formed(),
    {
        proof {
            use_type_invariant(&self);
        }
        self.x
    }

    #[verifier::when_used_as_spec(spec_y)]
    pub fn y(self) -> (y: i32)
        ensures
            y == self.spec_y(),
            self.well_formed(),
    {
        proof {
            use_type_invariant(&self);
        }
        self.y
    }

    /// The place moved down and left onto whole units.
    pub fn floor(self) -> (floored: Position)
        ensures
            floored.spec_x() == floor_unit(self.spec_x() as int),
            floored.spec_y() == floor_unit(self.spec_y() as int),
            floored.well_formed(),
    {
        proof {
            use_type_invariant(&self);
        }
        Position { x: floor_coordinate(self.x), y: floor_coordinate(self.y) }
    }

    /// The square of the distance to `other`.
    pub fn distance_squared(self, other: Position) -> (squared: u64)
        ensures
            squared == distance_squared(self, other),
            self.well_formed(),
            other.well_formed(),
    {
        proof {
            use_type_invariant(&self);
            use_type_invariant(&other);
        }
        let dx: i64 = self.x as i64 - other.x as i64;
        let dy: i64 = self.y as i64 - other.y as i64;
        assert(0 <= dx * dx <= 4_000_000_000_000_000_000) by (nonlinear_arith)
            requires
                -2_000_000_000 <= dx <= 2_000_000_000,
        ;
        assert(0 <= dy * dy <= 4_000_000_000_000_000_000) by (nonlinear_arith)
            requires
                -2_000_000_000 <= dy <= 2_000_000_000,
        ;
        let sx: i64 = dx * dx;
        let sy: i64 = dy * dy;
        sx as u64 + sy as u64
    }

    /// `other` is less than `range` away.
    pub fn within_range(self, other: Position, range: u32) -> (near: bool)
        ensures
            near == within_range(self, other, range),
    {
        let limit: u64 = range as u64;
        assert(limit * limit <= 0xffff_ffff * 0xffff_ffff) by (nonlinear_arith)
            requires
                0 <= limit <= 0xffff_ffff,
        ;
        self.distance_squared(other) < limit * limit
    }
}

fn floor_coordinate(v: i32) -> (floored: i32)
    requires
        in_world(v as int),
    ensures
        floored == floor_unit(v as int),
        in_world(floored as int),
{
    let positive: u32 = (v + WORLD_LIMIT) as u32;
    let rest: u32 = positive % 1_000;
    assert(rest == v % 1_000) by {
        assert((v + 1_000_000_000) % 1_000 == v % 1_000) by {
            vstd::arithmetic::div_mod::lemma_mod_multiples_vanish(1_000_000, v as int, 1_000);
        }
    }
    v - rest as i32
}

} // verus!
