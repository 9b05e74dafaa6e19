use vstd::prelude::*;

verus! {

/// Thousandths of a pixel in one pixel.
pub const UNIT: i64 = 1000;

/// `v` held to the range of `i64`.
pub open spec fn clamp_i64(v: int) -> int {
    if v > i64::MAX {
        i64::MAX as int
    } else if v < i64::MIN {
        i64::MIN as int
    } else {
        v
    }
}

/// `a + b`, held to the range of `i64` where the sum leaves it.
pub fn add_clamped(a: i64, b: i64) -> (r: i64)
    ensures
        r == clamp_i64(a + b),
{
    let s: i128 = a as i128 + b as i128;
    if s > i64::MAX as i128 {
        i64::MAX
    } else if s < i64::MIN as i128 {
        i64::MIN
    } else {
        s as i64
    }
}

/// `a - b`, held to the range of `i64` where the difference leaves it.
pub fn sub_clamped(a: i64, b: i64) -> (r: i64)
    ensures
        r == clamp_i64(a - b),
{
    let s: i128 = a as i128 - b as i128;
    if s > i64::MAX as i128 {
        i64::MAX
    } else if s < i64::MIN as i128 {
        i64::MIN
    } else {
        s as i64
    }
}

/// A point or a displacement in world units.
#[derive(Clone, Copy, Debug, PartialEq, Eq, Structural)]
pub struct Vec2 {
    pub x: i64,
    pub y: i64,
}

impl Vec2 {
    pub fn new(x: i64, y: i64) -> (r: Vec2)
        ensures
            r == (Vec2 { x, y }),
    {
        Vec2 { x, y }
    }
}

/// A pair of non-negative magnitudes: half-extents in world units, or
/// scale factors in percent.
#[derive(Clone, Copy, Debug, PartialEq, Eq, Structural)]
pub struct Extent {
    pub x: u32,
    pub y: u32,
}

/// A rectangle given by a reference point `(x, y)` and magnitudes `(w, h)`.
#[derive(Clone, Copy, Debug, PartialEq, Eq, Structural)]
pub struct Rect {
    pub x: i64,
    pub y: i64,
    pub w: i64,
    pub h: i64,
}

/// An axis-aligned box, closed on every side.
#[derive(Clone, Copy, Debug, PartialEq, Eq, Structural)]
pub struct Aabb {
    pub min_x: i128,
    pub min_y: i128,
    pub max_x: i128,
    pub max_y: i128,
}

impl Aabb {
    /// The box centred on `center` with half-extents `half`.
    pub open spec fn centered_spec(cx: int, cy: int, hx: int, hy: int) -> Aabb {
        Aabb {
            min_x: (cx - hx) as i128,
            min_y: (cy - hy) as i128,
            max_x: (cx + hx) as i128,
            max_y: (cy + hy) as i128,
        }
    }

    /// The two boxes share at least one point; touching edges count.
    pub open spec fn intersects_spec(self, o: Aabb) -> bool {
        &&& self.min_x <= o.max_x
        &&& o.min_x <= self.max_x
        &&& self.min_y <= o.max_y
        &&& o.min_y <= self.max_y
    }

    /// `o` lies wholly inside this box.
    pub open spec fn contains_spec(self, o: Aabb) -> bool {
        &&& self.min_x <= o.min_x
        &&& o.max_x <= self.max_x
        &&& self.min_y <= o.min_y
        &&& o.max_y <= self.max_y
    }

    /// The point `p` lies inside this box or on its boundary.
    pub open spec fn contains_point_spec(self, p: Vec2) -> bool {
        &&& self.min_x <= p.x <= self.max_x
        &&& self.min_y <= p.y <= self.max_y
    }

    /// The box centred on `center` with half-extents `half` (in world units).
    pub fn centered(center: Vec2, half_x: u64, half_y: u64) -> (r: Aabb)
        ensures
            r == Aabb::centered_spec(center.x as int, center.y as int, half_x as int, half_y as int),
    {
        Aabb {
            min_x: center.x as i128 - half_x as i128,
            min_y: center.y as i128 - half_y as i128,
            max_x: center.x as i128 + half_x as i128,
            max_y: center.y as i128 + half_y as i128,
        }
    }

    /// The box of a rectangle: centred on the rectangle's `(x, y)` with
    /// half-extents `(w, h)`.
    pub fn from_rect(r: &Rect) -> (b: Aabb)
        ensures
            b == Aabb::centered_spec(r.x as int, r.y as int, r.w as int, r.h as int),
    {
        Aabb {
            min_x: r.x as i128 - r.w as i128,
            min_y: r.y as i128 - r.h as i128,
            max_x: r.x as i128 + r.w as i128,
            max_y: r.y as i128 + r.h as i128,
        }
    }

    pub fn intersects(&self, o: &Aabb) -> (r: bool)
        ensures
            r == self.intersects_spec(*o),
    {
        self.min_x <= o.max_x && o.min_x <= self.max_x && self.min_y <= o.max_y && o.min_y
            <= self.max_y
    }

    pub fn contains(&self, o: &Aabb) -> (r: bool)
        ensures
            r == self.contains_spec(*o),
    {
        self.min_x <= o.min_x && o.max_x <= self.max_x && self.min_y <= o.min_y && o.max_y
            <= self.max_y
    }

    pub fn contains_point(&self, p: &Vec2) -> (r: bool)
        ensures
            r == self.contains_point_spec(*p),
    {
        self.min_x <= p.x as i128 && p.x as i128 <= self.max_x && self.min_y <= p.y as i128
            && p.y as i128 <= self.max_y
    }
}

/// Boxes that only share part of an edge, one's right side on the other's
/// left side, intersect.
pub proof fn lemma_touching_boxes_intersect(a: Aabb, b: Aabb)
    requires
        a.min_x <= a.max_x,
        b.min_x <= b.max_x,
        a.max_x == b.min_x,
        a.min_y <= b.max_y,
        b.min_y <= a.max_y,
    ensures
        a.intersects_spec(b),
        b.intersects_spec(a),
{
}

} // verus!
