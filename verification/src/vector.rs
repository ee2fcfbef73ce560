use vstd::prelude::*;

verus! {

/// A planar coordinate pair. Positions, velocities and the like are carried
/// as plain integers; the continuous motion equations of the physics
/// integrator are outside this core, which only reads and resets them.
#[derive(Clone, Copy, Debug, PartialEq, Eq, Structural)]
pub struct Vector2f {
    pub x: i64,
    pub y: i64,
}

/// Addition clamped to the `i64` range, so that integrating a velocity into
/// a position can never overflow however long the match runs.
pub open spec fn sat_add_spec(a: i64, b: i64) -> i64 {
    if a + b > i64::MAX {
        i64::MAX
    } else if a + b < i64::MIN {
        i64::MIN
    } else {
        (a + b) as i64
    }
}

pub fn sat_add(a: i64, b: i64) -> (r: i64)
    ensures
        r == sat_add_spec(a, b),
{
    if b >= 0 {
        if a > i64::MAX - b {
            i64::MAX
        } else {
            a + b
        }
    } else {
        if a < i64::MIN - b {
            i64::MIN
        } else {
            a + b
        }
    }
}

/// Halving that rounds toward zero, as machine division of a signed
/// integer does.
pub open spec fn half_toward_zero_spec(a: i64) -> i64 {
    if a >= 0 {
        (a / 2) as i64
    } else {
        (-((-(a as int)) / 2)) as i64
    }
}

pub fn half_toward_zero(a: i64) -> (r: i64)
    ensures
        r == half_toward_zero_spec(a),
{
    a / 2
}

impl Vector2f {
    pub open spec fn new_spec(x: i64, y: i64) -> Vector2f {
        Vector2f { x, y }
    }

    pub fn new(x: i64, y: i64) -> (r: Vector2f)
        ensures
            r == Vector2f::new_spec(x, y),
    {
        Vector2f { x, y }
    }

    /// Componentwise clamped addition.
    pub open spec fn plus_spec(self, other: Vector2f) -> Vector2f {
        Vector2f { x: sat_add_spec(self.x, other.x), y: sat_add_spec(self.y, other.y) }
    }

    pub fn plus(self, other: Vector2f) -> (r: Vector2f)
        ensures
            r == self.plus_spec(other),
    {
        Vector2f { x: sat_add(self.x, other.x), y: sat_add(self.y, other.y) }
    }

    /// Componentwise halving toward zero, the damping correction applied to
    /// a dead ball's velocity.
    pub open spec fn halved_spec(self) -> Vector2f {
        Vector2f { x: half_toward_zero_spec(self.x), y: half_toward_zero_spec(self.y) }
    }

    pub fn halved(self) -> (r: Vector2f)
        ensures
            r == self.halved_spec(),
    {
        Vector2f { x: half_toward_zero(self.x), y: half_toward_zero(self.y) }
    }
}

} // verus!
