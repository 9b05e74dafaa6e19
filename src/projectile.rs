use vstd::prelude::*;
use crate::asset::Asset;
use crate::body::{Body, Velocity};
use crate::geometry::{Extent, Vec2};
use crate::unit::{Animation, Unit};

verus! {

/// Distance a projectile covers per tick, in world units.
pub const PROJECTILE_SPEED: i32 = 15000;

/// A shot; the player's fly right, the others left.
#[derive(Clone, Copy, Debug, PartialEq, Eq, Structural)]
pub struct Projectile {
    pub unit: Unit,
    pub player_owned: bool,
}

impl Projectile {
    pub open spec fn wf(self) -> bool {
        self.unit.wf()
    }

    pub open spec fn fired(x: i64, y: i64, player_owned: bool) -> Projectile {
        Projectile {
            unit: Unit {
                is_dead: false,
                asset_key: Asset::Projectile1,
                body: Body {
                    pos: Vec2 { x, y },
                    size: Extent { x: 32000, y: 16000 },
                    scale: Extent { x: 50, y: 50 },
                    velocity: Velocity {
                        x: if player_owned {
                            PROJECTILE_SPEED
                        } else {
                            (-PROJECTILE_SPEED) as i32
                        },
                        y: 0,
                    },
                    rotation: if player_owned {
                        1
                    } else {
                        3
                    },
                    collidable: true,
                },
                animation: Animation { cols: 1, rows: 1, frame: 0, loops: true },
            },
            player_owned,
        }
    }

    pub fn new(x: i64, y: i64, player_owned: bool) -> (r: Projectile)
        ensures
            r.wf(),
            r == Projectile::fired(x, y, player_owned),
    {
        let rotation: u8 = if player_owned {
            1
        } else {
            3
        };
        let mut body = Body::new(x, y, 64000, 32000, 50, 50, rotation, true);
        body.velocity = Velocity {
            x: if player_owned {
                PROJECTILE_SPEED
            } else {
                -PROJECTILE_SPEED
            },
            y: 0,
        };
        Projectile { unit: Unit::new(body, Asset::Projectile1, 1, 1, true), player_owned }
    }

    pub fn is_player_owned(&self) -> (r: bool)
        ensures
            r == self.player_owned,
    {
        self.player_owned
    }
}

} // verus!
