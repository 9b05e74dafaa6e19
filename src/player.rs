use vstd::prelude::*;
use crate::asset::Asset;
use crate::body::{Body, Velocity};
use crate::geometry::{Extent, Vec2};
use crate::unit::{Animation, Unit};

verus! {

/// Speed of the player's ship along one axis, in world units per tick.
pub const PLAYER_SPEED: i32 = 8000;

/// Ten-thousandths of the speed that a diagonal step takes on each axis
/// (one over the square root of two, rounded down).
pub const DIAGONAL_RATIO: i32 = 7071;

/// Indices of the movement flags.
pub const MOVE_UP: u16 = 0;
pub const MOVE_DOWN: u16 = 1;
pub const MOVE_RIGHT: u16 = 2;
pub const MOVE_LEFT: u16 = 3;

/// The ship the player steers.
#[derive(Clone, Copy, Debug)]
pub struct Player {
    /// When the ship was last destroyed, in microseconds.
    pub last_death: u64,
    pub movement_speed: i32,
    /// Held movement keys: up, down, right, left.
    pub move_dir: [bool; 4],
    pub unit: Unit,
}

/// `1` for a set flag, `0` otherwise.
pub open spec fn flag(b: bool) -> int {
    if b {
        1
    } else {
        0
    }
}

/// The per-tick displacement that the held keys ask for: `speed` along a
/// single axis, `speed * DIAGONAL_RATIO / 10000` on each axis of a diagonal,
/// and nothing when no direction (or two opposite ones) is held.
pub open spec fn movement_spec(speed: int, dirs: [bool; 4]) -> Velocity {
    let dx = flag(dirs[2]) - flag(dirs[3]);
    let dy = flag(dirs[0]) - flag(dirs[1]);
    let step = if dx != 0 && dy != 0 {
        speed * DIAGONAL_RATIO / 10000
    } else {
        speed
    };
    Velocity { x: (dx * step) as i32, y: (dy * step) as i32 }
}

impl Player {
    pub open spec fn wf(self) -> bool {
        &&& self.unit.wf()
        &&& 0 < self.movement_speed <= PLAYER_SPEED
    }

    pub open spec fn spawned(x: i64, y: i64) -> Player {
        Player {
            last_death: 0,
            movement_speed: PLAYER_SPEED,
            move_dir: [false, false, false, false],
            unit: Unit {
                is_dead: false,
                asset_key: Asset::Player,
                body: Body {
                    pos: Vec2 { x, y },
                    size: Extent { x: 68000, y: 48000 },
                    scale: Extent { x: 75, y: 75 },
                    velocity: Velocity { x: 0, y: 0 },
                    rotation: 1,
                    collidable: true,
                },
                animation: Animation { cols: 1, rows: 1, frame: 0, loops: true },
            },
        }
    }

    /// The player one tick later: velocity from the held keys, then the
    /// unit's own update.
    pub open spec fn updated(self) -> Player {
        let v = movement_spec(self.movement_speed as int, self.move_dir);
        Player {
            unit: Unit { body: Body { velocity: v, ..self.unit.body }, ..self.unit }.updated(),
            ..self
        }
    }

    /// A live ship at `(x, y)`, at rest, facing right.
    pub fn new(x: i64, y: i64) -> (r: Player)
        ensures
            r.wf(),
            r == Player::spawned(x, y),
    {
        let body = Body::new(x, y, 136000, 96000, 75, 75, 1, true);
        Player {
            last_death: 0,
            movement_speed: PLAYER_SPEED,
            move_dir: [false, false, false, false],
            unit: Unit::new(body, Asset::Player, 1, 1, true),
        }
    }

    /// The held direction: right minus left, up minus down.
    fn get_direction_vector(&self) -> (r: (i32, i32))
        ensures
            r.0 == flag(self.move_dir[2]) - flag(self.move_dir[3]),
            r.1 == flag(self.move_dir[0]) - flag(self.move_dir[1]),
    {
        let mut dx: i32 = 0;
        let mut dy: i32 = 0;
        if self.move_dir[0] {
            dy = dy + 1;
        }
        if self.move_dir[1] {
            dy = dy - 1;
        }
        if self.move_dir[2] {
            dx = dx + 1;
        }
        if self.move_dir[3] {
            dx = dx - 1;
        }
        (dx, dy)
    }

    fn get_movement_velocity(&self) -> (r: Velocity)
        requires
            self.wf(),
        ensures
            r == movement_spec(self.movement_speed as int, self.move_dir),
    {
        let (dx, dy) = self.get_direction_vector();
        let step: i32 = if dx != 0 && dy != 0 {
            self.movement_speed * DIAGONAL_RATIO / 10000
        } else {
            self.movement_speed
        };
        assert(0 <= self.movement_speed * DIAGONAL_RATIO / 10000 <= self.movement_speed) by (nonlinear_arith)
            requires
                0 < self.movement_speed,
        ;
        assert(-8000 <= dx * step <= 8000 && -8000 <= dy * step <= 8000) by (nonlinear_arith)
            requires
                -1 <= dx <= 1,
                -1 <= dy <= 1,
                0 <= step <= 8000,
        ;
        Velocity { x: dx * step, y: dy * step }
    }

    /// Everything but the movement flags is the same in `a` and `b`.
    pub open spec fn same_but_flags(a: Player, b: Player) -> bool {
        &&& a.last_death == b.last_death
        &&& a.movement_speed == b.movement_speed
        &&& a.unit == b.unit
    }

    /// Holds the movement key `dir`; an index past the four keys does nothing.
    pub fn move_dir(&mut self, dir: u16)
        ensures
            Player::same_but_flags(*final(self), *old(self)),
            dir < 4 ==> final(self).move_dir@ == old(self).move_dir@.update(dir as int, true),
            dir >= 4 ==> final(self).move_dir == old(self).move_dir,
    {
        if dir < 4 {
            self.move_dir[dir as usize] = true;
        }
    }

    /// Releases the movement key `dir`; an index past the four keys does nothing.
    pub fn move_dir_cancel(&mut self, dir: u16)
        ensures
            Player::same_but_flags(*final(self), *old(self)),
            dir < 4 ==> final(self).move_dir@ == old(self).move_dir@.update(dir as int, false),
            dir >= 4 ==> final(self).move_dir == old(self).move_dir,
    {
        if dir < 4 {
            self.move_dir[dir as usize] = false;
        }
    }

    pub fn set_alive(&mut self)
        ensures
            *final(self) == (Player { unit: Unit { is_dead: false, ..old(self).unit }, ..*old(self) }),
    {
        self.unit.is_dead = false;
    }

    /// Marks the ship destroyed at time `now`.
    pub fn set_dead(&mut self, now: u64)
        ensures
            *final(self) == (Player {
                last_death: now,
                unit: Unit { is_dead: true, ..old(self).unit },
                ..*old(self)
            }),
    {
        self.last_death = now;
        self.unit.set_dead();
    }

    pub fn is_dead(&self) -> (r: bool)
        ensures
            r == self.unit.is_dead,
    {
        self.unit.is_dead
    }

    pub fn get_body(&self) -> (r: Body)
        ensures
            r == self.unit.body,
    {
        self.unit.body
    }

    pub fn set_body(&mut self, body: Body)
        ensures
            *final(self) == (Player { unit: Unit { body, ..old(self).unit }, ..*old(self) }),
    {
        self.unit.body = body;
    }

    /// One tick: steer by the held keys, then advance the unit.
    pub fn update(&mut self)
        requires
            old(self).wf(),
        ensures
            final(self).wf(),
            *final(self) == old(self).updated(),
    {
        let v = self.get_movement_velocity();
        self.unit.set_velocity(v);
        self.unit.update();
    }
}

/// The movement flags after a run of key events on a live ship, each event
/// `(dir, down)` setting (`down`) or clearing flag `dir`, as `move_dir` and
/// `move_dir_cancel` do.
pub open spec fn flags_after(flags: Seq<bool>, events: Seq<(u16, bool)>) -> Seq<bool>
    decreases events.len(),
{
    if events.len() == 0 {
        flags
    } else {
        let rest = flags_after(flags, events.drop_last());
        let (dir, down) = events.last();
        if dir < 4 {
            rest.update(dir as int, down)
        } else {
            rest
        }
    }
}

/// How many of the events press (`down`) or release key `dir`.
pub open spec fn key_count(events: Seq<(u16, bool)>, dir: u16, down: bool) -> int
    decreases events.len(),
{
    if events.len() == 0 {
        0
    } else {
        key_count(events.drop_last(), dir, down) + if events.last() == (dir, down) {
            1int
        } else {
            0int
        }
    }
}

/// Presses and releases of key `dir` alternate, starting with a press.
pub open spec fn alternates(events: Seq<(u16, bool)>, dir: u16) -> bool {
    forall|n: int|
        0 <= n <= events.len() ==> 0 <= #[trigger] key_count(events.take(n), dir, true) - key_count(
            events.take(n),
            dir,
            false,
        ) <= 1
}

/// From no key held, where the presses and releases of key `dir` alternate
/// starting with a press, its flag is set exactly when it has had more
/// presses than releases.
pub proof fn lemma_flag_counts_presses(events: Seq<(u16, bool)>, dir: u16)
    requires
        dir < 4,
        alternates(events, dir),
    ensures
        flags_after(seq![false, false, false, false], events)[dir as int] == (key_count(events, dir, true)
            > key_count(events, dir, false)),
        flags_after(seq![false, false, false, false], events).len() == 4,
    decreases events.len(),
{
    let start = seq![false, false, false, false];
    if events.len() > 0 {
        let rest = events.drop_last();
        assert forall|n: int| 0 <= n <= rest.len() implies 0 <= #[trigger] key_count(rest.take(n), dir, true)
            - key_count(rest.take(n), dir, false) <= 1 by {
            assert(rest.take(n) =~= events.take(n));
        }
        lemma_flag_counts_presses(rest, dir);
        assert(events.take(events.len() as int) =~= events);
        assert(events.take(rest.len() as int) =~= rest);
        assert(key_count(events.take(events.len() as int), dir, true) - key_count(events.take(events.len() as int), dir, false) <= 1);
        assert(0 <= key_count(events.take(rest.len() as int), dir, true) - key_count(events.take(rest.len() as int), dir, false));
    } else {
        assert(start[dir as int] == false);
    }
}

} // verus!
