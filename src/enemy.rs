use vstd::prelude::*;
use crate::asset::Asset;
use crate::body::{Body, Velocity};
use crate::geometry::{Extent, Vec2};
use crate::unit::{Animation, Unit};

verus! {

/// Distance a drone covers per tick, in world units.
pub const MOVE_SPEED_NORMAL: i32 = 5000;

/// The kinds of enemy a wave can hold.
#[derive(Clone, Copy, Debug, PartialEq, Eq, Structural)]
pub enum EnemyType {
    NormalDrone,
}

/// An enemy ship; it flies left at a fixed speed.
#[derive(Clone, Copy, Debug, PartialEq, Eq, Structural)]
pub struct Enemy {
    pub unit: Unit,
}

impl Enemy {
    pub open spec fn wf(self) -> bool {
        self.unit.wf()
    }

    pub open spec fn made(x: i64, y: i64, asset_key: Asset, move_speed: i32) -> Enemy {
        Enemy {
            unit: Unit {
                is_dead: false,
                asset_key,
                body: Body {
                    pos: Vec2 { x, y },
                    size: Extent { x: 66000, y: 64000 },
                    scale: Extent { x: 50, y: 50 },
                    velocity: Velocity { x: -move_speed as i32, y: 0 },
                    rotation: 3,
                    collidable: true,
                },
                animation: Animation { cols: 1, rows: 1, frame: 0, loops: true },
            },
        }
    }

    pub open spec fn drone(x: i64, y: i64) -> Enemy {
        Enemy::made(x, y, Asset::Drone1, MOVE_SPEED_NORMAL)
    }

    fn new(x: i64, y: i64, asset_key: Asset, move_speed: i32) -> (r: Enemy)
        requires
            move_speed > i32::MIN,
        ensures
            r.wf(),
            r == Enemy::made(x, y, asset_key, move_speed),
    {
        let mut body = Body::new(x, y, 132000, 128000, 50, 50, 3, true);
        body.velocity = Velocity { x: -move_speed, y: 0 };
        Enemy { unit: Unit::new(body, asset_key, 1, 1, true) }
    }

    pub fn new_drone(x: i64, y: i64) -> (r: Enemy)
        ensures
            r.wf(),
            r == Enemy::drone(x, y),
    {
        Enemy::new(x, y, Asset::Drone1, MOVE_SPEED_NORMAL)
    }

    /// The enemy of the given kind at `(x, y)`.
    pub open spec fn by_key(enemy_type: EnemyType, x: i64, y: i64) -> Option<Enemy> {
        match enemy_type {
            EnemyType::NormalDrone => Some(Enemy::drone(x, y)),
        }
    }

    pub fn create_enemy_by_key(enemy_type: EnemyType, x: i64, y: i64) -> (r: Option<Enemy>)
        ensures
            r == Enemy::by_key(enemy_type, x, y),
            r matches Some(e) ==> e.wf(),
    {
        match enemy_type {
            EnemyType::NormalDrone => Some(Enemy::new_drone(x, y)),
        }
    }
}

} // verus!
