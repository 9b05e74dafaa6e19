use vstd::prelude::*;
use crate::asset::Asset;
use crate::body::{Body, Velocity};
use crate::geometry::{Extent, Vec2};
use crate::unit::{Animation, Unit};

verus! {

/// A visual effect: it takes no part in collisions and dies when its
/// animation has played once.
#[derive(Clone, Copy, Debug, PartialEq, Eq, Structural)]
pub struct Partical {
    pub unit: Unit,
}

impl Partical {
    pub open spec fn wf(self) -> bool {
        self.unit.wf()
    }

    /// The explosion left by a destroyed ship at `(x, y)`.
    pub open spec fn drone_death(x: i64, y: i64) -> Partical {
        Partical {
            unit: Unit {
                is_dead: false,
                asset_key: Asset::Explosion1,
                body: Body {
                    pos: Vec2 { x, y },
                    size: Extent { x: 0, y: 0 },
                    scale: Extent { x: 150, y: 150 },
                    velocity: Velocity { x: 0, y: 0 },
                    rotation: 1,
                    collidable: false,
                },
                animation: Animation { cols: 8, rows: 8, frame: 0, loops: false },
            },
        }
    }

    fn new(
        x: i64,
        y: i64,
        scale_x: u32,
        scale_y: u32,
        rotation: u8,
        asset_key: Asset,
        sheet_w: u32,
        sheet_h: u32,
    ) -> (r: Partical)
        requires
            sheet_w >= 1,
            sheet_h >= 1,
            sheet_w * sheet_h <= u32::MAX,
        ensures
            r.wf(),
            r.unit.body == Body::new_spec(x, y, 0, 0, scale_x, scale_y, rotation, false),
            r.unit.is_dead == false,
            r.unit.asset_key == asset_key,
            r.unit.animation == (Animation { cols: sheet_w, rows: sheet_h, frame: 0, loops: false }),
    {
        let body = Body::new(x, y, 0, 0, scale_x, scale_y, rotation, false);
        Partical { unit: Unit::new(body, asset_key, sheet_w, sheet_h, false) }
    }

    pub fn new_drone_death(x: i64, y: i64) -> (r: Partical)
        ensures
            r.wf(),
            r == Partical::drone_death(x, y),
    {
        Partical::new(x, y, 150, 150, 1, Asset::Explosion1, 8, 8)
    }
}

} // verus!
