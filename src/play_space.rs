use vstd::prelude::*;
use crate::geometry::{Aabb, Rect, UNIT};

verus! {

/// How far entities may stray left and right of the player's area: the
/// entity area is the player's area widened by this much on each side.
pub const ENTITY_AREA_BUFFER_SZ: i64 = 100000;

/// The widest and tallest window, in world units.
pub const MAX_WINDOW_EXTENT: i64 = 4294967295000;

/// The rectangles that part the world.
///
/// Each area's box is centred on its rectangle's `(x, y)` and reaches `w`
/// and `h` from it on each side.
#[derive(Clone, Copy, Debug, PartialEq, Eq, Structural)]
pub struct PlaySpace {
    pub player_area: Rect,
    pub entity_area: Rect,
    pub player_area_aabb: Aabb,
    /// Entities whose position leaves this box are dropped.
    pub entity_area_aabb: Aabb,
    /// An enemy wholly inside this box has escaped.
    pub life_loss_area_aabb: Aabb,
}

impl PlaySpace {
    /// The player's area has no negative extent, and none wider or taller
    /// than the largest window.
    pub open spec fn wf(self) -> bool {
        &&& 0 <= self.player_area.w <= MAX_WINDOW_EXTENT
        &&& 0 <= self.player_area.h <= MAX_WINDOW_EXTENT
    }

    pub open spec fn new_spec(window_w: u32, window_h: u32) -> PlaySpace {
        let w = window_w * UNIT;
        let h = window_h * UNIT;
        PlaySpace {
            player_area: Rect { x: 0, y: h as i64, w: w as i64, h: h as i64 },
            entity_area: Rect { x: 0, y: h as i64, w: (w + ENTITY_AREA_BUFFER_SZ) as i64, h: h as i64 },
            player_area_aabb: Aabb::centered_spec(0, h, w, h),
            entity_area_aabb: Aabb::centered_spec(0, h, w + ENTITY_AREA_BUFFER_SZ, h),
            life_loss_area_aabb: Aabb::centered_spec(-w, h, w, h),
        }
    }

    /// The areas of a `window_w` by `window_h` pixel window.
    pub fn new(window_w: u32, window_h: u32) -> (r: PlaySpace)
        ensures
            r.wf(),
            r == PlaySpace::new_spec(window_w, window_h),
            r.entity_area_aabb.min_x == r.player_area_aabb.min_x - ENTITY_AREA_BUFFER_SZ,
            r.entity_area_aabb.max_x == r.player_area_aabb.max_x + ENTITY_AREA_BUFFER_SZ,
            r.entity_area_aabb.min_y == r.player_area_aabb.min_y,
            r.entity_area_aabb.max_y == r.player_area_aabb.max_y,
    {
        let w: i64 = window_w as i64 * UNIT;
        let h: i64 = window_h as i64 * UNIT;
        let player_area = Rect { x: 0, y: h, w, h };
        let entity_area = Rect {
            x: player_area.x,
            y: player_area.y,
            w: player_area.w + ENTITY_AREA_BUFFER_SZ,
            h: player_area.h,
        };
        let life_loss_area = Rect { x: -w, y: h, w, h };
        PlaySpace {
            player_area,
            entity_area,
            player_area_aabb: PlaySpace::create_aabb_from_rect(&player_area),
            entity_area_aabb: PlaySpace::create_aabb_from_rect(&entity_area),
            life_loss_area_aabb: PlaySpace::create_aabb_from_rect(&life_loss_area),
        }
    }

    fn create_aabb_from_rect(rect: &Rect) -> (r: Aabb)
        ensures
            r == Aabb::centered_spec(rect.x as int, rect.y as int, rect.w as int, rect.h as int),
    {
        Aabb::from_rect(rect)
    }
}

} // verus!
