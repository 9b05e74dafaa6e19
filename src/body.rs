use vstd::prelude::*;
use crate::camera::Camera;
use crate::geometry::{Aabb, Extent, Vec2, add_clamped, clamp_i64};

verus! {

/// Percent in a scale factor of one.
pub const PERCENT: u64 = 100;

/// Thousandths in a whole interpolation value.
pub const PERMILLE: u32 = 1000;

/// Position, half-extents, scale, motion and display rotation of an entity.
#[derive(Clone, Copy, Debug, PartialEq, Eq, Structural)]
pub struct Body {
    pub pos: Vec2,
    /// Half of the unscaled sprite width and height.
    pub size: Extent,
    /// Scale factors in percent.
    pub scale: Extent,
    /// Displacement per tick.
    pub velocity: Velocity,
    /// Display rotation in quarter turns; it does not turn the collision box.
    pub rotation: u8,
    pub collidable: bool,
}

/// A displacement per tick in world units.
#[derive(Clone, Copy, Debug, PartialEq, Eq, Structural)]
pub struct Velocity {
    pub x: i32,
    pub y: i32,
}

/// `pos` moved by `v`, held to the range of `i64`.
pub open spec fn moved(pos: Vec2, v: Velocity) -> Vec2 {
    Vec2 { x: clamp_i64(pos.x + v.x) as i64, y: clamp_i64(pos.y + v.y) as i64 }
}

/// The fraction `alpha / 1000` of `d`, rounded toward zero.
pub open spec fn part_spec(d: int, alpha: int) -> int {
    if d >= 0 {
        d * alpha / 1000
    } else {
        -((-d) * alpha / 1000)
    }
}

/// `pos` moved by the fraction `alpha / 1000` of `v`.
pub open spec fn moved_part(pos: Vec2, v: Velocity, alpha: int) -> Vec2 {
    Vec2 {
        x: clamp_i64(pos.x + part_spec(v.x as int, alpha)) as i64,
        y: clamp_i64(pos.y + part_spec(v.y as int, alpha)) as i64,
    }
}

/// The fraction `alpha / 1000` of `d`, rounded toward zero.
fn part_of(d: i32, alpha: u32) -> (r: i64)
    requires
        alpha <= PERMILLE,
    ensures
        r == part_spec(d as int, alpha as int),
{
    let m: i64 = if d >= 0 {
        d as i64
    } else {
        -(d as i64)
    };
    assert(0 <= m * alpha <= 2147483648 * 1000) by (nonlinear_arith)
        requires
            0 <= m <= 2147483648,
            0 <= alpha <= 1000,
    ;
    let q: i64 = m * alpha as i64 / PERMILLE as i64;
    if d >= 0 {
        q
    } else {
        -q
    }
}

impl Body {
    /// Collision half-extents: the half-size times the scale.
    pub open spec fn scaled_size_spec(self) -> (u64, u64) {
        (
            (self.size.x * self.scale.x / PERCENT as int) as u64,
            (self.size.y * self.scale.y / PERCENT as int) as u64,
        )
    }

    /// The collision box: centred on the position, with the scaled half-extents.
    pub open spec fn area_spec(self) -> Aabb {
        Aabb::centered_spec(
            self.pos.x as int,
            self.pos.y as int,
            self.scaled_size_spec().0 as int,
            self.scaled_size_spec().1 as int,
        )
    }

    pub open spec fn new_spec(
        x: i64,
        y: i64,
        width: u32,
        height: u32,
        scale_x: u32,
        scale_y: u32,
        rotation: u8,
        collidable: bool,
    ) -> Body {
        Body {
            pos: Vec2 { x, y },
            size: Extent { x: width / 2, y: height / 2 },
            scale: Extent { x: scale_x, y: scale_y },
            velocity: Velocity { x: 0, y: 0 },
            rotation,
            collidable,
        }
    }

    /// A body of `width` by `height` (unscaled) at `(x, y)`, at rest.
    pub fn new(
        x: i64,
        y: i64,
        width: u32,
        height: u32,
        scale_x: u32,
        scale_y: u32,
        rotation: u8,
        collidable: bool,
    ) -> (r: Body)
        ensures
            r == Body::new_spec(x, y, width, height, scale_x, scale_y, rotation, collidable),
    {
        Body {
            pos: Vec2 { x, y },
            size: Extent { x: width / 2, y: height / 2 },
            scale: Extent { x: scale_x, y: scale_y },
            velocity: Velocity { x: 0, y: 0 },
            rotation,
            collidable,
        }
    }

    pub fn get_movement_vector(&self) -> (r: Velocity)
        ensures
            r == self.velocity,
    {
        self.velocity
    }

    /// Moves the body by one tick of its velocity.
    pub fn update_pos(&mut self)
        ensures
            *final(self) == (Body { pos: moved(old(self).pos, old(self).velocity), ..*old(self) }),
    {
        let v = self.get_movement_vector();
        self.pos = Vec2 { x: add_clamped(self.pos.x, v.x as i64), y: add_clamped(self.pos.y, v.y as i64) };
    }

    pub fn get_scaled_size(&self) -> (r: (u64, u64))
        ensures
            r == self.scaled_size_spec(),
    {
        assert(self.size.x * self.scale.x <= u32::MAX * u32::MAX) by (nonlinear_arith);
        assert(self.size.y * self.scale.y <= u32::MAX * u32::MAX) by (nonlinear_arith);
        (
            self.size.x as u64 * self.scale.x as u64 / PERCENT,
            self.size.y as u64 * self.scale.y as u64 / PERCENT,
        )
    }

    /// The collision box, whether or not the body is collidable.
    pub fn area(&self) -> (r: Aabb)
        ensures
            r == self.area_spec(),
    {
        let (hx, hy) = self.get_scaled_size();
        Aabb::centered(self.pos, hx, hy)
    }

    /// Where the body is drawn: its position moved on by `alpha / 1000` of a
    /// tick, seen through `camera`.
    pub fn get_view_position(&self, alpha: u32, camera: &Camera) -> (r: Vec2)
        requires
            alpha <= PERMILLE,
        ensures
            r == camera.view_spec(moved_part(self.pos, self.velocity, alpha as int)),
    {
        let v = self.get_movement_vector();
        let dx = part_of(v.x, alpha);
        let dy = part_of(v.y, alpha);
        let p = Vec2 { x: add_clamped(self.pos.x, dx), y: add_clamped(self.pos.y, dy) };
        camera.get_view_position(&p)
    }
}

} // verus!
