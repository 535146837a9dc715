//! Points, velocities and accelerations, and their exact integration.
use vstd::prelude::*;
use crate::units::GRAVITY_STRENGTH;

verus! {

/// A position or an extent in the plane, in length units.
#[derive(Clone, Copy, Debug, PartialEq, Eq, Structural)]
pub struct Point {
    pub x: i64,
    pub y: i64,
}

/// Rate of change of a position, in length units per microsecond.
#[derive(Clone, Copy, Debug, PartialEq, Eq, Structural)]
pub struct Velocity {
    pub x: i64,
    pub y: i64,
}

/// Rate of change of a velocity, in length units per microsecond squared.
#[derive(Clone, Copy, Debug, PartialEq, Eq, Structural)]
pub struct Acceleration {
    pub x: i64,
    pub y: i64,
}

/// Where a body stands and how large it is: the centre of its box and the
/// box's full width and height.
#[derive(Clone, Copy, Debug, PartialEq, Eq, Structural)]
pub struct Transform {
    pub translation: Point,
    pub scale: Point,
}

/// Whether a mathematical integer can be held in an `i64`.
pub open spec fn fits_i64(v: int) -> bool {
    i64::MIN <= v <= i64::MAX
}

/// A quantity after changing at `rate` for `dt` time units.
pub open spec fn advanced(start: int, rate: int, dt: int) -> int {
    start + rate * dt
}

/// `start + rate * dt`, or `None` where that does not fit in an `i64`.
pub fn checked_advance(start: i64, rate: i64, dt: u32) -> (r: Option<i64>)
    ensures
        r == (if fits_i64(advanced(start as int, rate as int, dt as int)) {
            Some(advanced(start as int, rate as int, dt as int) as i64)
        } else {
            None
        }),
{
    assert(-0x8000_0000_0000_0000 * 0x1_0000_0000 <= rate * dt <= 0x8000_0000_0000_0000
        * 0x1_0000_0000) by (nonlinear_arith)
        requires
            i64::MIN <= rate <= i64::MAX,
            0 <= dt <= u32::MAX,
    ;
    let v: i128 = start as i128 + (rate as i128) * (dt as i128);
    if v < i64::MIN as i128 || v > i64::MAX as i128 {
        None
    } else {
        Some(v as i64)
    }
}

impl Velocity {
    /// At rest.
    pub fn zero() -> (r: Self)
        ensures
            r.x == 0,
            r.y == 0,
    {
        Velocity { x: 0, y: 0 }
    }

    /// Whether both components of `accelerated` fit in an `i64`.
    pub open spec fn accelerated_fits(self, a: Acceleration, dt: int) -> bool {
        &&& fits_i64(advanced(self.x as int, a.x as int, dt))
        &&& fits_i64(advanced(self.y as int, a.y as int, dt))
    }

    /// This velocity after `dt` microseconds under acceleration `a`.
    pub open spec fn accelerated(self, a: Acceleration, dt: int) -> Velocity {
        Velocity {
            x: advanced(self.x as int, a.x as int, dt) as i64,
            y: advanced(self.y as int, a.y as int, dt) as i64,
        }
    }

    /// This velocity after `dt` microseconds under acceleration `a`, or
    /// `None` where a component leaves the range of `i64`.
    pub fn checked_accelerate(&self, a: &Acceleration, dt: u32) -> (r: Option<Velocity>)
        ensures
            r == (if self.accelerated_fits(*a, dt as int) {
                Some(self.accelerated(*a, dt as int))
            } else {
                None
            }),
    {
        match (checked_advance(self.x, a.x, dt), checked_advance(self.y, a.y, dt)) {
            (Some(x), Some(y)) => Some(Velocity { x, y }),
            _ => None,
        }
    }
}

impl Acceleration {
    /// The constant downward pull on the player.
    pub fn gravity() -> (r: Self)
        ensures
            r.x == 0,
            r.y == -GRAVITY_STRENGTH,
    {
        Acceleration { x: 0, y: -GRAVITY_STRENGTH }
    }
}

impl Point {
    /// Whether both components of `moved` fit in an `i64`.
    pub open spec fn moved_fits(self, v: Velocity, dt: int) -> bool {
        &&& fits_i64(advanced(self.x as int, v.x as int, dt))
        &&& fits_i64(advanced(self.y as int, v.y as int, dt))
    }

    /// This point after moving at velocity `v` for `dt` microseconds.
    pub open spec fn moved(self, v: Velocity, dt: int) -> Point {
        Point {
            x: advanced(self.x as int, v.x as int, dt) as i64,
            y: advanced(self.y as int, v.y as int, dt) as i64,
        }
    }

    /// This point after moving at velocity `v` for `dt` microseconds, or
    /// `None` where a component leaves the range of `i64`.
    pub fn checked_move(&self, v: &Velocity, dt: u32) -> (r: Option<Point>)
        ensures
            r == (if self.moved_fits(*v, dt as int) {
                Some(self.moved(*v, dt as int))
            } else {
                None
            }),
    {
        match (checked_advance(self.x, v.x, dt), checked_advance(self.y, v.y, dt)) {
            (Some(x), Some(y)) => Some(Point { x, y }),
            _ => None,
        }
    }
}

impl Transform {
    /// Whether `moved` fits in an `i64` on both axes.
    pub open spec fn moved_fits(self, v: Velocity, dt: int) -> bool {
        self.translation.moved_fits(v, dt)
    }

    /// This transform after moving at velocity `v` for `dt` microseconds:
    /// the centre moves, the size stays.
    pub open spec fn moved(self, v: Velocity, dt: int) -> Transform {
        Transform { translation: self.translation.moved(v, dt), scale: self.scale }
    }

    /// This transform after moving at velocity `v` for `dt` microseconds, or
    /// `None` where the centre leaves the range of `i64`.
    pub fn checked_move(&self, v: &Velocity, dt: u32) -> (r: Option<Transform>)
        ensures
            r == (if self.moved_fits(*v, dt as int) {
                Some(self.moved(*v, dt as int))
            } else {
                None
            }),
    {
        match self.translation.checked_move(v, dt) {
            Some(translation) => Some(Transform { translation, scale: self.scale }),
            None => None,
        }
    }
}

} // verus!
