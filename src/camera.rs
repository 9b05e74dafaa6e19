use vstd::prelude::*;
use crate::geometry::{Vec2, UNIT, clamp_i64, sub_clamped};

verus! {

/// Maps world positions (Y up) to view positions (Y down).
#[derive(Clone, Copy, Debug, PartialEq, Eq, Structural)]
pub struct Camera {
    pub pos: Vec2,
    /// Width and height of the view in pixels.
    pub width: u32,
    pub height: u32,
}

impl Camera {
    /// The view position of the world point `p`:
    /// `(p.x - cam.x, height - (p.y - cam.y))`.
    pub open spec fn view_spec(self, p: Vec2) -> Vec2 {
        Vec2 {
            x: clamp_i64(p.x - self.pos.x) as i64,
            y: clamp_i64(self.height * UNIT - clamp_i64(p.y - self.pos.y)) as i64,
        }
    }

    /// A camera at the world origin over a `w` by `h` pixel view.
    pub fn new(w: u32, h: u32) -> (r: Camera)
        ensures
            r.pos == (Vec2 { x: 0, y: 0 }),
            r.width == w,
            r.height == h,
    {
        Camera { pos: Vec2 { x: 0, y: 0 }, width: w, height: h }
    }

    pub fn get_view_position(&self, pos: &Vec2) -> (r: Vec2)
        ensures
            r == self.view_spec(*pos),
    {
        let top: i64 = self.height as i64 * UNIT;
        Vec2 { x: sub_clamped(pos.x, self.pos.x), y: sub_clamped(top, sub_clamped(pos.y, self.pos.y)) }
    }
}

} // verus!
