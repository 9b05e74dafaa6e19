use vstd::prelude::*;
use crate::body::{Body, PERMILLE};
use crate::camera::Camera;
use crate::enemy::Enemy;
use crate::game_state::{GameState, World};
use crate::geometry::{Aabb, Vec2, add_clamped, clamp_i64};
use crate::particals::Partical;
use crate::play_space::PlaySpace;
use crate::player::Player;
use crate::projectile::Projectile;
use crate::unit::{SpriteDraw, Unit};

verus! {

/// Points for each enemy a player's shot destroys.
pub const KILL_SCORE: u32 = 150;

/// The operations of a simulation step over a game's state.
pub struct EntityManager;

/// `u` with its life flag set.
pub open spec fn dead_unit(u: Unit) -> Unit {
    Unit { is_dead: true, ..u }
}

pub open spec fn killed_enemy(e: Enemy) -> Enemy {
    Enemy { unit: dead_unit(e.unit) }
}

pub open spec fn killed_projectile(p: Projectile) -> Projectile {
    Projectile { unit: dead_unit(p.unit), ..p }
}

pub open spec fn killed_player(p: Player, now: u64) -> Player {
    Player { last_death: now, unit: dead_unit(p.unit), ..p }
}

/// The explosion left by a destroyed ship: two thirds of its unscaled
/// half-width right of its centre.
pub open spec fn death_spot(b: Body) -> Partical {
    Partical::drone_death(clamp_i64(b.pos.x + b.size.x * 2 / 3) as i64, b.pos.y)
}

/// `s` plus one credited kill; the score stops at the largest `u32`.
pub open spec fn credited(s: u32) -> u32 {
    if s + KILL_SCORE > u32::MAX {
        u32::MAX
    } else {
        (s + KILL_SCORE) as u32
    }
}

/// `l` less one life; lives stop at zero.
pub open spec fn less_one(l: i32) -> i32 {
    if l > 0 {
        (l - 1) as i32
    } else {
        l
    }
}

/// Every entity of the world one tick on, the player's ship included.
pub open spec fn integrated(w: World) -> World {
    World {
        player: w.player.updated(),
        enemies: Seq::new(w.enemies.len(), |i: int| Enemy { unit: w.enemies[i].unit.updated() }),
        projectiles: Seq::new(
            w.projectiles.len(),
            |i: int| Projectile { unit: w.projectiles[i].unit.updated(), ..w.projectiles[i] },
        ),
        particals: particals_integrated(w.particals),
        ..w
    }
}

pub open spec fn particals_integrated(ps: Seq<Partical>) -> Seq<Partical> {
    Seq::new(ps.len(), |i: int| Partical { unit: ps[i].unit.updated() })
}

/// The first `n` enemies checked against the player's box `pbox`: each live
/// one that touches it is destroyed with the player's ship, and each such
/// crash leaves two explosions, the ship's first.
pub open spec fn rammed(w: World, pbox: Aabb, now: u64, n: nat) -> World
    decreases n,
{
    if n == 0 {
        w
    } else {
        let s = rammed(w, pbox, now, (n - 1) as nat);
        let k = n - 1;
        let e = s.enemies[k];
        match e.unit.collision_area_spec() {
            Some(b) => if b.intersects_spec(pbox) {
                World {
                    player: killed_player(s.player, now),
                    enemies: s.enemies.update(k, killed_enemy(e)),
                    particals: s.particals.push(death_spot(s.player.unit.body)).push(
                        death_spot(e.unit.body),
                    ),
                    ..s
                }
            } else {
                s
            },
            None => s,
        }
    }
}

/// The player's shot `j` checked against the first `m` enemies: while the
/// shot lives, the first live enemy it touches is destroyed with it, leaves
/// an explosion and scores.
pub open spec fn shot_hits(w: World, j: int, m: nat) -> World
    decreases m,
{
    if m == 0 {
        w
    } else {
        let s = shot_hits(w, j, (m - 1) as nat);
        let k = m - 1;
        let e = s.enemies[k];
        let p = s.projectiles[j];
        match (p.unit.collision_area_spec(), e.unit.collision_area_spec()) {
            (Some(pb), Some(eb)) => if pb.intersects_spec(eb) {
                World {
                    enemies: s.enemies.update(k, killed_enemy(e)),
                    projectiles: s.projectiles.update(j, killed_projectile(p)),
                    particals: s.particals.push(death_spot(e.unit.body)),
                    score: credited(s.score),
                    ..s
                }
            } else {
                s
            },
            _ => s,
        }
    }
}

/// An enemy's shot `j` checked against the player's box `pbox`.
pub open spec fn shot_at_player(w: World, j: int, pbox: Option<Aabb>, now: u64) -> World {
    let p = w.projectiles[j];
    match (p.unit.collision_area_spec(), pbox) {
        (Some(sb), Some(pb)) => if sb.intersects_spec(pb) {
            World {
                player: killed_player(w.player, now),
                projectiles: w.projectiles.update(j, killed_projectile(p)),
                particals: w.particals.push(death_spot(w.player.unit.body)),
                ..w
            }
        } else {
            w
        },
        _ => w,
    }
}

/// The first `n` shots resolved in order.
pub open spec fn shots_resolved(w: World, pbox: Option<Aabb>, now: u64, n: nat) -> World
    decreases n,
{
    if n == 0 {
        w
    } else {
        let s = shots_resolved(w, pbox, now, (n - 1) as nat);
        let j = n - 1;
        if s.projectiles[j].player_owned {
            shot_hits(s, j, s.enemies.len())
        } else {
            shot_at_player(s, j, pbox, now)
        }
    }
}

/// Both collision passes: ships against the player's box `pbox` (when the
/// ship has one), then every shot.
pub open spec fn collided(w: World, pbox: Option<Aabb>, now: u64) -> World {
    let a = rammed_all(w, pbox, now);
    shots_resolved(a, pbox, now, a.projectiles.len())
}

/// The world after the ships-against-ship pass alone.
pub open spec fn rammed_all(w: World, pbox: Option<Aabb>, now: u64) -> World {
    match pbox {
        Some(p) => rammed(w, p, now, w.enemies.len()),
        None => w,
    }
}

/// An enemy whose whole box lies in the life-loss box `area`.
pub open spec fn escaped(e: Enemy, area: Aabb) -> bool {
    match e.unit.collision_area_spec() {
        Some(b) => area.contains_spec(b),
        None => false,
    }
}

/// The first `n` enemies checked for escape: each escaped one is destroyed
/// and costs a life.
pub open spec fn lives_lost(w: World, area: Aabb, n: nat) -> World
    decreases n,
{
    if n == 0 {
        w
    } else {
        let s = lives_lost(w, area, (n - 1) as nat);
        let e = s.enemies[n - 1];
        if escaped(e, area) {
            World { lives: less_one(s.lives), enemies: s.enemies.update(n - 1, killed_enemy(e)), ..s }
        } else {
            s
        }
    }
}

/// How many of the first `n` enemies have escaped.
pub open spec fn escape_count(es: Seq<Enemy>, area: Aabb, n: nat) -> nat
    decreases n,
{
    if n == 0 {
        0
    } else {
        escape_count(es, area, (n - 1) as nat) + if escaped(es[n - 1], area) {
            1nat
        } else {
            0nat
        }
    }
}

/// A unit that survives the cull: alive, with its position in the entity area.
pub open spec fn retained(ps: PlaySpace, u: Unit) -> bool {
    !u.is_dead && ps.entity_area_aabb.contains_point_spec(u.body.pos)
}

pub open spec fn keeps_enemy(ps: PlaySpace) -> spec_fn(Enemy) -> bool {
    |e: Enemy| retained(ps, e.unit)
}

pub open spec fn keeps_projectile(ps: PlaySpace) -> spec_fn(Projectile) -> bool {
    |p: Projectile| retained(ps, p.unit)
}

pub open spec fn keeps_partical(ps: PlaySpace) -> spec_fn(Partical) -> bool {
    |p: Partical| retained(ps, p.unit)
}

/// The world without the dead and the strayed.
pub open spec fn culled(w: World, ps: PlaySpace) -> World {
    World {
        enemies: w.enemies.filter(keeps_enemy(ps)),
        projectiles: w.projectiles.filter(keeps_projectile(ps)),
        particals: w.particals.filter(keeps_partical(ps)),
        ..w
    }
}

/// The world after the player fires: a player's shot at the ship's
/// position, unless the ship is destroyed.
pub open spec fn player_fired(w: World) -> World {
    if w.player.unit.is_dead {
        w
    } else {
        World {
            projectiles: w.projectiles.push(
                Projectile::fired(w.player.unit.body.pos.x, w.player.unit.body.pos.y, true),
            ),
            ..w
        }
    }
}

/// The sprites of a game `alpha / 1000` of a tick on: shots, enemies, the
/// player's ship, then explosions, each live one in order.
pub open spec fn draw_list(game_state: &GameState, alpha: int, camera: Camera) -> Seq<SpriteDraw> {
    let ship = match game_state.player.unit.drawn(alpha, camera) {
        Some(d) => seq![d],
        None => Seq::empty(),
    };
    game_state.projectiles@.filter_map(|p: Projectile| p.unit.drawn(alpha, camera))
        + game_state.enemies@.filter_map(|e: Enemy| e.unit.drawn(alpha, camera))
        + ship
        + game_state.particals@.filter_map(|p: Partical| p.unit.drawn(alpha, camera))
}

/// One simulation step at time `now`. With the player's ship alive:
/// integrate, collide, count escapes, cull. With it destroyed only the
/// explosions play on and are culled; enemies and shots stay frozen.
pub open spec fn stepped(w: World, ps: PlaySpace, now: u64) -> World {
    if !w.player.unit.is_dead {
        let a = integrated(w);
        let b = collided(a, a.player.unit.collision_area_spec(), now);
        let c = lives_lost(b, ps.life_loss_area_aabb, b.enemies.len());
        culled(c, ps)
    } else {
        World { particals: particals_integrated(w.particals).filter(keeps_partical(ps)), ..w }
    }
}

impl EntityManager {
    pub fn is_player_alive(game_state: &GameState) -> (r: bool)
        ensures
            r == !game_state.player.unit.is_dead,
    {
        !game_state.player.is_dead()
    }

    /// The explosion left by a ship with body `b`.
    fn ship_death_partical(b: &Body) -> (r: Partical)
        ensures
            r == death_spot(*b),
            r.wf(),
    {
        let offset: i64 = b.size.x as i64 * 2 / 3;
        Partical::new_drone_death(add_clamped(b.pos.x, offset), b.pos.y)
    }

    fn integrate_enemies(enemies: &mut Vec<Enemy>)
        requires
            forall|i: int| 0 <= i < old(enemies).len() ==> (#[trigger] old(enemies)[i]).wf(),
        ensures
            final(enemies)@ == Seq::new(
                old(enemies)@.len(),
                |i: int| Enemy { unit: old(enemies)@[i].unit.updated() },
            ),
            forall|i: int| 0 <= i < final(enemies).len() ==> (#[trigger] final(enemies)[i]).wf(),
    {
        let ghost e0 = enemies@;
        let n = enemies.len();
        let mut i: usize = 0;
        while i < n
            invariant
                n == enemies.len(),
                e0.len() == n,
                0 <= i <= n,
                forall|j: int| 0 <= j < i ==> enemies@[j] == (Enemy { unit: e0[j].unit.updated() }),
                forall|j: int| i <= j < n ==> enemies@[j] == e0[j],
                forall|j: int| 0 <= j < n ==> (#[trigger] e0[j]).wf(),
                forall|j: int| 0 <= j < n ==> (#[trigger] enemies@[j]).wf(),
            decreases n - i,
        {
            let mut e = enemies[i];
            e.unit.update();
            enemies.set(i, e);
            i = i + 1;
        }
        assert(enemies@ =~= Seq::new(e0.len(), |i: int| Enemy { unit: e0[i].unit.updated() }));
    }

    fn integrate_projectiles(projectiles: &mut Vec<Projectile>)
        requires
            forall|i: int| 0 <= i < old(projectiles).len() ==> (#[trigger] old(projectiles)[i]).wf(),
        ensures
            final(projectiles)@ == Seq::new(
                old(projectiles)@.len(),
                |i: int| Projectile { unit: old(projectiles)@[i].unit.updated(), ..old(projectiles)@[i] },
            ),
            forall|i: int| 0 <= i < final(projectiles).len() ==> (#[trigger] final(projectiles)[i]).wf(),
    {
        let ghost p0 = projectiles@;
        let n = projectiles.len();
        let mut i: usize = 0;
        while i < n
            invariant
                n == projectiles.len(),
                p0.len() == n,
                0 <= i <= n,
                forall|j: int|
                    0 <= j < i ==> projectiles@[j] == (Projectile { unit: p0[j].unit.updated(), ..p0[j] }),
                forall|j: int| i <= j < n ==> projectiles@[j] == p0[j],
                forall|j: int| 0 <= j < n ==> (#[trigger] p0[j]).wf(),
                forall|j: int| 0 <= j < n ==> (#[trigger] projectiles@[j]).wf(),
            decreases n - i,
        {
            let mut p = projectiles[i];
            p.unit.update();
            projectiles.set(i, p);
            i = i + 1;
        }
        assert(projectiles@ =~= Seq::new(
            p0.len(),
            |i: int| Projectile { unit: p0[i].unit.updated(), ..p0[i] },
        ));
    }

    fn integrate_particals(particals: &mut Vec<Partical>)
        requires
            forall|i: int| 0 <= i < old(particals).len() ==> (#[trigger] old(particals)[i]).wf(),
        ensures
            final(particals)@ == particals_integrated(old(particals)@),
            forall|i: int| 0 <= i < final(particals).len() ==> (#[trigger] final(particals)[i]).wf(),
    {
        let ghost p0 = particals@;
        let n = particals.len();
        let mut i: usize = 0;
        while i < n
            invariant
                n == particals.len(),
                p0.len() == n,
                0 <= i <= n,
                forall|j: int| 0 <= j < i ==> particals@[j] == (Partical { unit: p0[j].unit.updated() }),
                forall|j: int| i <= j < n ==> particals@[j] == p0[j],
                forall|j: int| 0 <= j < n ==> (#[trigger] p0[j]).wf(),
                forall|j: int| 0 <= j < n ==> (#[trigger] particals@[j]).wf(),
            decreases n - i,
        {
            let mut p = particals[i];
            p.unit.update();
            particals.set(i, p);
            i = i + 1;
        }
        assert(particals@ =~= particals_integrated(p0));
    }

    /// Ships against the player's box: each live enemy touching `pbox` is
    /// destroyed together with the player's ship.
    fn ram_pass(game_state: &mut GameState, pbox: &Aabb, now: u64)
        requires
            old(game_state).wf(),
        ensures
            final(game_state).wf(),
            final(game_state).settings() == old(game_state).settings(),
            final(game_state).world() == rammed(old(game_state).world(), *pbox, now, old(game_state).enemies.len() as nat),
    {
        let ghost w0 = game_state.world();
        let ghost set0 = game_state.settings();
        let n = game_state.enemies.len();
        let mut i: usize = 0;
        while i < n
            invariant
                0 <= i <= n,
                n == game_state.enemies.len(),
                game_state.wf(),
                game_state.settings() == set0,
                game_state.world() == rammed(w0, *pbox, now, i as nat),
            decreases n - i,
        {
            let e = game_state.enemies[i];
            if let Some(b) = e.unit.collision_area() {
                if b.intersects(pbox) {
                    let player_spot = EntityManager::ship_death_partical(&game_state.player.unit.body);
                    game_state.player.set_dead(now);
                    game_state.particals.push(player_spot);
                    let mut hit = e;
                    hit.unit.set_dead();
                    game_state.enemies.set(i, hit);
                    game_state.particals.push(EntityManager::ship_death_partical(&e.unit.body));
                }
            }
            i = i + 1;
        }
    }

    /// The player's shot `j` against every enemy, in order.
    fn shot_pass(game_state: &mut GameState, j: usize)
        requires
            old(game_state).wf(),
            j < old(game_state).projectiles.len(),
        ensures
            final(game_state).wf(),
            final(game_state).settings() == old(game_state).settings(),
            final(game_state).world() == shot_hits(old(game_state).world(), j as int, old(game_state).enemies.len() as nat),
            final(game_state).enemies.len() == old(game_state).enemies.len(),
            final(game_state).projectiles.len() == old(game_state).projectiles.len(),
    {
        let ghost w0 = game_state.world();
        let ghost set0 = game_state.settings();
        let n = game_state.enemies.len();
        let mut k: usize = 0;
        while k < n
            invariant
                0 <= k <= n,
                n == game_state.enemies.len(),
                j < game_state.projectiles.len(),
                game_state.projectiles.len() == w0.projectiles.len(),
                game_state.wf(),
                game_state.settings() == set0,
                game_state.world() == shot_hits(w0, j as int, k as nat),
            decreases n - k,
        {
            let p = game_state.projectiles[j];
            let e = game_state.enemies[k];
            if let Some(pb) = p.unit.collision_area() {
                if let Some(eb) = e.unit.collision_area() {
                    if pb.intersects(&eb) {
                        let mut hit = e;
                        hit.unit.set_dead();
                        game_state.enemies.set(k, hit);
                        let mut spent = p;
                        spent.unit.set_dead();
                        game_state.projectiles.set(j, spent);
                        game_state.particals.push(EntityManager::ship_death_partical(&e.unit.body));
                        game_state.score = game_state.score.saturating_add(KILL_SCORE);
                    }
                }
            }
            k = k + 1;
        }
    }

    /// Resolves collisions: ships against the player's ship, then every shot
    /// against its targets.
    pub fn collision_resolution(game_state: &mut GameState, now: u64)
        requires
            old(game_state).wf(),
        ensures
            final(game_state).wf(),
            final(game_state).settings() == old(game_state).settings(),
            final(game_state).world() == collided(
                old(game_state).world(),
                old(game_state).player.unit.collision_area_spec(),
                now,
            ),
            ({
                let r = rammed_all(old(game_state).world(), old(game_state).player.unit.collision_area_spec(), now);
                &&& dead_count(final(game_state).enemies@) >= dead_count(r.enemies)
                &&& final(game_state).score == credited_times(
                    old(game_state).score as int,
                    dead_count(final(game_state).enemies@) - dead_count(r.enemies),
                )
                &&& final(game_state).lives == old(game_state).lives
            }),
    {
        proof {
            let w0 = game_state.world();
            let pb = game_state.player.unit.collision_area_spec();
            if let Some(p) = pb {
                lemma_rammed(w0, p, now, w0.enemies.len());
            }
            let r = rammed_all(w0, pb, now);
            lemma_shots_resolved(r, pb, now, r.projectiles.len());
        }
        let pbox = game_state.player.unit.collision_area();
        if let Some(b) = pbox {
            EntityManager::ram_pass(game_state, &b, now);
        }
        let ghost w1 = game_state.world();
        let ghost set0 = game_state.settings();
        let n = game_state.projectiles.len();
        let mut j: usize = 0;
        while j < n
            invariant
                0 <= j <= n,
                n == game_state.projectiles.len(),
                game_state.wf(),
                game_state.settings() == set0,
                game_state.world() == shots_resolved(w1, pbox, now, j as nat),
            decreases n - j,
        {
            if game_state.projectiles[j].is_player_owned() {
                EntityManager::shot_pass(game_state, j);
            } else {
                let p = game_state.projectiles[j];
                if let Some(sb) = p.unit.collision_area() {
                    if let Some(pb) = pbox {
                        if sb.intersects(&pb) {
                            let player_spot = EntityManager::ship_death_partical(&game_state.player.unit.body);
                            let mut spent = p;
                            spent.unit.set_dead();
                            game_state.projectiles.set(j, spent);
                            game_state.player.set_dead(now);
                            game_state.particals.push(player_spot);
                        }
                    }
                }
            }
            j = j + 1;
        }
    }

    /// Destroys each enemy wholly inside the life-loss area, one life for
    /// each; returns how many escaped.
    pub fn update_life_lost(game_state: &mut GameState) -> (r: usize)
        requires
            old(game_state).wf(),
        ensures
            final(game_state).wf(),
            final(game_state).settings() == old(game_state).settings(),
            final(game_state).world() == lives_lost(
                old(game_state).world(),
                old(game_state).play_space.life_loss_area_aabb,
                old(game_state).enemies.len() as nat,
            ),
            r == escape_count(
                old(game_state).enemies@,
                old(game_state).play_space.life_loss_area_aabb,
                old(game_state).enemies.len() as nat,
            ),
    {
        let ghost w0 = game_state.world();
        let ghost set0 = game_state.settings();
        let area = game_state.play_space.life_loss_area_aabb;
        let n = game_state.enemies.len();
        let mut lost: usize = 0;
        let mut i: usize = 0;
        while i < n
            invariant
                0 <= i <= n,
                n == game_state.enemies.len(),
                n == w0.enemies.len(),
                area == game_state.play_space.life_loss_area_aabb,
                game_state.wf(),
                game_state.settings() == set0,
                game_state.world() == lives_lost(w0, area, i as nat),
                forall|k: int| i <= k < n ==> game_state.enemies@[k] == w0.enemies[k],
                lost == escape_count(w0.enemies, area, i as nat),
                lost <= i,
            decreases n - i,
        {
            let e = game_state.enemies[i];
            let mut gone = false;
            if let Some(b) = e.unit.collision_area() {
                gone = area.contains(&b);
            }
            if gone {
                if game_state.lives > 0 {
                    game_state.lives = game_state.lives - 1;
                }
                let mut dead = e;
                dead.unit.set_dead();
                game_state.enemies.set(i, dead);
                lost = lost + 1;
            }
            i = i + 1;
        }
        lost
    }

    /// Whether a unit stays: alive, and positioned inside the entity area.
    fn retain_entity(play_space: &PlaySpace, unit: &Unit) -> (r: bool)
        ensures
            r == retained(*play_space, *unit),
    {
        if unit.is_dead() {
            false
        } else {
            play_space.entity_area_aabb.contains_point(&unit.body.pos)
        }
    }

    fn cull_enemies(play_space: &PlaySpace, v: &Vec<Enemy>) -> (r: Vec<Enemy>)
        requires
            forall|i: int| 0 <= i < v.len() ==> (#[trigger] v@[i]).wf(),
        ensures
            r@ == v@.filter(keeps_enemy(*play_space)),
            forall|i: int| 0 <= i < r.len() ==> (#[trigger] r[i]).wf() && retained(*play_space, r[i].unit),
    {
        let mut out: Vec<Enemy> = Vec::new();
        let n = v.len();
        let mut i: usize = 0;
        while i < n
            invariant
                0 <= i <= n,
                n == v.len(),
                forall|k: int| 0 <= k < n ==> (#[trigger] v@[k]).wf(),
                out@ == v@.subrange(0, i as int).filter(keeps_enemy(*play_space)),
                forall|k: int| 0 <= k < out.len() ==> (#[trigger] out[k]).wf() && retained(*play_space, out[k].unit),
            decreases n - i,
        {
            let e = v[i];
            proof {
                reveal(Seq::filter);
                assert(v@.subrange(0, i + 1).drop_last() =~= v@.subrange(0, i as int));
            }
            if EntityManager::retain_entity(play_space, &e.unit) {
                out.push(e);
            }
            i = i + 1;
        }
        assert(v@.subrange(0, n as int) =~= v@);
        out
    }

    fn cull_projectiles(play_space: &PlaySpace, v: &Vec<Projectile>) -> (r: Vec<Projectile>)
        requires
            forall|i: int| 0 <= i < v.len() ==> (#[trigger] v@[i]).wf(),
        ensures
            r@ == v@.filter(keeps_projectile(*play_space)),
            forall|i: int| 0 <= i < r.len() ==> (#[trigger] r[i]).wf() && retained(*play_space, r[i].unit),
    {
        let mut out: Vec<Projectile> = Vec::new();
        let n = v.len();
        let mut i: usize = 0;
        while i < n
            invariant
                0 <= i <= n,
                n == v.len(),
                forall|k: int| 0 <= k < n ==> (#[trigger] v@[k]).wf(),
                out@ == v@.subrange(0, i as int).filter(keeps_projectile(*play_space)),
                forall|k: int| 0 <= k < out.len() ==> (#[trigger] out[k]).wf() && retained(*play_space, out[k].unit),
            decreases n - i,
        {
            let p = v[i];
            proof {
                reveal(Seq::filter);
                assert(v@.subrange(0, i + 1).drop_last() =~= v@.subrange(0, i as int));
            }
            if EntityManager::retain_entity(play_space, &p.unit) {
                out.push(p);
            }
            i = i + 1;
        }
        assert(v@.subrange(0, n as int) =~= v@);
        out
    }

    fn cull_particals(play_space: &PlaySpace, v: &Vec<Partical>) -> (r: Vec<Partical>)
        requires
            forall|i: int| 0 <= i < v.len() ==> (#[trigger] v@[i]).wf(),
        ensures
            r@ == v@.filter(keeps_partical(*play_space)),
            forall|i: int| 0 <= i < r.len() ==> (#[trigger] r[i]).wf() && retained(*play_space, r[i].unit),
    {
        let mut out: Vec<Partical> = Vec::new();
        let n = v.len();
        let mut i: usize = 0;
        while i < n
            invariant
                0 <= i <= n,
                n == v.len(),
                forall|k: int| 0 <= k < n ==> (#[trigger] v@[k]).wf(),
                out@ == v@.subrange(0, i as int).filter(keeps_partical(*play_space)),
                forall|k: int| 0 <= k < out.len() ==> (#[trigger] out[k]).wf() && retained(*play_space, out[k].unit),
            decreases n - i,
        {
            let p = v[i];
            proof {
                reveal(Seq::filter);
                assert(v@.subrange(0, i + 1).drop_last() =~= v@.subrange(0, i as int));
            }
            if EntityManager::retain_entity(play_space, &p.unit) {
                out.push(p);
            }
            i = i + 1;
        }
        assert(v@.subrange(0, n as int) =~= v@);
        out
    }

    /// Drops every dead entity and every one positioned outside the entity area.
    pub fn update_clean_up(game_state: &mut GameState)
        requires
            old(game_state).wf(),
        ensures
            final(game_state).wf(),
            final(game_state).settings() == old(game_state).settings(),
            final(game_state).world() == culled(old(game_state).world(), old(game_state).play_space),
            EntityManager::all_retained(final(game_state)),
    {
        let play_space = game_state.play_space;
        game_state.enemies = EntityManager::cull_enemies(&play_space, &game_state.enemies);
        game_state.particals = EntityManager::cull_particals(&play_space, &game_state.particals);
        game_state.projectiles = EntityManager::cull_projectiles(&play_space, &game_state.projectiles);
    }

    /// Every entity but the player's ship is alive and inside the entity area.
    pub open spec fn all_retained(game_state: &GameState) -> bool {
        let ps = game_state.play_space;
        &&& forall|i: int|
            0 <= i < game_state.enemies.len() ==> retained(ps, (#[trigger] game_state.enemies[i]).unit)
        &&& forall|i: int|
            0 <= i < game_state.projectiles.len() ==> retained(ps, (#[trigger] game_state.projectiles[i]).unit)
        &&& forall|i: int|
            0 <= i < game_state.particals.len() ==> retained(ps, (#[trigger] game_state.particals[i]).unit)
    }

    /// One simulation step at time `now` (see `stepped`).
    pub fn update(game_state: &mut GameState, now: u64)
        requires
            old(game_state).wf(),
        ensures
            final(game_state).wf(),
            final(game_state).settings() == old(game_state).settings(),
            final(game_state).world() == stepped(old(game_state).world(), old(game_state).play_space, now),
            !old(game_state).player.unit.is_dead ==> EntityManager::all_retained(final(game_state)),
            forall|i: int|
                0 <= i < final(game_state).particals.len() ==> retained(
                    final(game_state).play_space,
                    (#[trigger] final(game_state).particals@[i]).unit,
                ),
    {
        if EntityManager::is_player_alive(game_state) {
            game_state.player.update();
            EntityManager::integrate_enemies(&mut game_state.enemies);
            EntityManager::integrate_projectiles(&mut game_state.projectiles);
            EntityManager::integrate_particals(&mut game_state.particals);
            EntityManager::collision_resolution(game_state, now);
            EntityManager::update_life_lost(game_state);
            EntityManager::update_clean_up(game_state);
        } else {
            EntityManager::integrate_particals(&mut game_state.particals);
            let play_space = game_state.play_space;
            game_state.particals = EntityManager::cull_particals(&play_space, &game_state.particals);
        }
    }

    /// Where a respawned ship appears: a third of the way across the
    /// player's area, half way up.
    pub fn respawn_player(game_state: &mut GameState)
        requires
            old(game_state).wf(),
        ensures
            final(game_state).wf(),
            final(game_state).settings() == old(game_state).settings(),
            final(game_state).world() == (World {
                player: Player {
                    unit: Unit {
                        is_dead: false,
                        body: Body {
                            pos: Vec2 {
                                x: GameState::spawn_point(old(game_state).play_space).0,
                                y: GameState::spawn_point(old(game_state).play_space).1,
                            },
                            ..old(game_state).player.unit.body
                        },
                        ..old(game_state).player.unit
                    },
                    ..old(game_state).player
                },
                ..old(game_state).world()
            }),
    {
        let mut body = game_state.player.get_body();
        body.pos = Vec2::new(
            game_state.play_space.player_area.w / 3,
            game_state.play_space.player_area.h / 2,
        );
        game_state.player.set_body(body);
        game_state.player.set_alive();
    }

    pub fn get_player_last_death(game_state: &GameState) -> (r: u64)
        ensures
            r == game_state.player.last_death,
    {
        game_state.player.last_death
    }

    pub fn add_enemy(game_state: &mut GameState, enemy: Enemy)
        requires
            old(game_state).wf(),
            enemy.wf(),
        ensures
            final(game_state).wf(),
            final(game_state).settings() == old(game_state).settings(),
            final(game_state).world() == (World {
                enemies: old(game_state).enemies@.push(enemy),
                ..old(game_state).world()
            }),
    {
        game_state.enemies.push(enemy);
    }

    pub fn get_enemy_count(game_state: &GameState) -> (r: usize)
        ensures
            r == game_state.enemies.len(),
    {
        game_state.enemies.len()
    }

    /// Fires a player's shot from the ship's position; a destroyed ship
    /// does not fire.
    pub fn player_fire(game_state: &mut GameState)
        requires
            old(game_state).wf(),
        ensures
            final(game_state).wf(),
            final(game_state).settings() == old(game_state).settings(),
            final(game_state).world() == player_fired(old(game_state).world()),
    {
        if EntityManager::is_player_alive(game_state) {
            let player_body = game_state.player.get_body();
            game_state.projectiles.push(Projectile::new(player_body.pos.x, player_body.pos.y, true));
        }
    }

    /// Fires an enemy's shot from `(x, y)`.
    pub fn enemy_fire(game_state: &mut GameState, x: i64, y: i64)
        requires
            old(game_state).wf(),
        ensures
            final(game_state).wf(),
            final(game_state).settings() == old(game_state).settings(),
            final(game_state).world() == (World {
                projectiles: old(game_state).projectiles@.push(Projectile::fired(x, y, false)),
                ..old(game_state).world()
            }),
    {
        game_state.projectiles.push(Projectile::new(x, y, false));
    }

    /// Holds movement key `dir` for a live ship.
    pub fn player_move(game_state: &mut GameState, dir: u16)
        requires
            old(game_state).wf(),
        ensures
            final(game_state).wf(),
            final(game_state).settings() == old(game_state).settings(),
            final(game_state).world() == (World { player: final(game_state).player, ..old(game_state).world() }),
            Player::same_but_flags(final(game_state).player, old(game_state).player),
            old(game_state).player.unit.is_dead || dir >= 4 ==> final(game_state).player.move_dir
                == old(game_state).player.move_dir,
            !old(game_state).player.unit.is_dead && dir < 4 ==> final(game_state).player.move_dir@
                == old(game_state).player.move_dir@.update(dir as int, true),
    {
        if EntityManager::is_player_alive(game_state) {
            game_state.player.move_dir(dir);
        }
    }

    /// Releases movement key `dir` for a live ship.
    pub fn player_move_cancel(game_state: &mut GameState, dir: u16)
        requires
            old(game_state).wf(),
        ensures
            final(game_state).wf(),
            final(game_state).settings() == old(game_state).settings(),
            final(game_state).world() == (World { player: final(game_state).player, ..old(game_state).world() }),
            Player::same_but_flags(final(game_state).player, old(game_state).player),
            old(game_state).player.unit.is_dead || dir >= 4 ==> final(game_state).player.move_dir
                == old(game_state).player.move_dir,
            !old(game_state).player.unit.is_dead && dir < 4 ==> final(game_state).player.move_dir@
                == old(game_state).player.move_dir@.update(dir as int, false),
    {
        if EntityManager::is_player_alive(game_state) {
            game_state.player.move_dir_cancel(dir);
        }
    }

    fn draw_projectiles(v: &Vec<Projectile>, alpha: u32, camera: &Camera, out: &mut Vec<SpriteDraw>)
        requires
            alpha <= PERMILLE,
            forall|i: int| 0 <= i < v.len() ==> (#[trigger] v@[i]).wf(),
        ensures
            final(out)@ == old(out)@ + v@.filter_map(|p: Projectile| p.unit.drawn(alpha as int, *camera)),
    {
        let ghost out0 = out@;
        let n = v.len();
        let mut i: usize = 0;
        while i < n
            invariant
                0 <= i <= n,
                n == v.len(),
                alpha <= PERMILLE,
                forall|k: int| 0 <= k < n ==> (#[trigger] v@[k]).wf(),
                out@ == out0 + v@.subrange(0, i as int).filter_map(|p: Projectile| p.unit.drawn(alpha as int, *camera)),
            decreases n - i,
        {
            assert(v@.subrange(0, i + 1).drop_last() =~= v@.subrange(0, i as int));
            if let Some(d) = v[i].unit.draw(alpha, camera) {
                out.push(d);
            }
            i = i + 1;
        }
        assert(v@.subrange(0, n as int) =~= v@);
    }

    fn draw_enemies(v: &Vec<Enemy>, alpha: u32, camera: &Camera, out: &mut Vec<SpriteDraw>)
        requires
            alpha <= PERMILLE,
            forall|i: int| 0 <= i < v.len() ==> (#[trigger] v@[i]).wf(),
        ensures
            final(out)@ == old(out)@ + v@.filter_map(|e: Enemy| e.unit.drawn(alpha as int, *camera)),
    {
        let ghost out0 = out@;
        let n = v.len();
        let mut i: usize = 0;
        while i < n
            invariant
                0 <= i <= n,
                n == v.len(),
                alpha <= PERMILLE,
                forall|k: int| 0 <= k < n ==> (#[trigger] v@[k]).wf(),
                out@ == out0 + v@.subrange(0, i as int).filter_map(|e: Enemy| e.unit.drawn(alpha as int, *camera)),
            decreases n - i,
        {
            assert(v@.subrange(0, i + 1).drop_last() =~= v@.subrange(0, i as int));
            if let Some(d) = v[i].unit.draw(alpha, camera) {
                out.push(d);
            }
            i = i + 1;
        }
        assert(v@.subrange(0, n as int) =~= v@);
    }

    fn draw_particals(v: &Vec<Partical>, alpha: u32, camera: &Camera, out: &mut Vec<SpriteDraw>)
        requires
            alpha <= PERMILLE,
            forall|i: int| 0 <= i < v.len() ==> (#[trigger] v@[i]).wf(),
        ensures
            final(out)@ == old(out)@ + v@.filter_map(|p: Partical| p.unit.drawn(alpha as int, *camera)),
    {
        let ghost out0 = out@;
        let n = v.len();
        let mut i: usize = 0;
        while i < n
            invariant
                0 <= i <= n,
                n == v.len(),
                alpha <= PERMILLE,
                forall|k: int| 0 <= k < n ==> (#[trigger] v@[k]).wf(),
                out@ == out0 + v@.subrange(0, i as int).filter_map(|p: Partical| p.unit.drawn(alpha as int, *camera)),
            decreases n - i,
        {
            assert(v@.subrange(0, i + 1).drop_last() =~= v@.subrange(0, i as int));
            if let Some(d) = v[i].unit.draw(alpha, camera) {
                out.push(d);
            }
            i = i + 1;
        }
        assert(v@.subrange(0, n as int) =~= v@);
    }

    /// The sprites to draw, `alpha / 1000` of a tick after the last step.
    pub fn draw(game_state: &GameState, alpha: u32, camera: &Camera) -> (r: Vec<SpriteDraw>)
        requires
            game_state.wf(),
            alpha <= PERMILLE,
        ensures
            r@ == draw_list(game_state, alpha as int, *camera),
    {
        let mut out: Vec<SpriteDraw> = Vec::new();
        EntityManager::draw_projectiles(&game_state.projectiles, alpha, camera, &mut out);
        EntityManager::draw_enemies(&game_state.enemies, alpha, camera, &mut out);
        let ghost before_ship = out@;
        if let Some(d) = game_state.player.unit.draw(alpha, camera) {
            out.push(d);
        }
        EntityManager::draw_particals(&game_state.particals, alpha, camera, &mut out);
        assert(out@ =~= draw_list(game_state, alpha as int, *camera));
        out
    }
}

/// How many of the enemies are dead.
pub open spec fn dead_count(es: Seq<Enemy>) -> nat
    decreases es.len(),
{
    if es.len() == 0 {
        0
    } else {
        dead_count(es.drop_last()) + if es.last().unit.is_dead {
            1nat
        } else {
            0nat
        }
    }
}

/// `x + 150 * k`, held to the range of `u32`.
pub open spec fn credited_times(x: int, k: int) -> int {
    if x + KILL_SCORE * k > u32::MAX {
        u32::MAX as int
    } else {
        x + KILL_SCORE * k
    }
}

/// Killing one live enemy adds one to the dead.
proof fn lemma_dead_count_kill(es: Seq<Enemy>, k: int)
    requires
        0 <= k < es.len(),
        !es[k].unit.is_dead,
    ensures
        dead_count(es.update(k, killed_enemy(es[k]))) == dead_count(es) + 1,
    decreases es.len(),
{
    let u = es.update(k, killed_enemy(es[k]));
    if k == es.len() - 1 {
        assert(u.drop_last() =~= es.drop_last());
    } else {
        assert(u.drop_last() =~= es.drop_last().update(k, killed_enemy(es[k])));
        lemma_dead_count_kill(es.drop_last(), k);
    }
}

/// The player's shot `j` keeps the counts of shots and enemies and the
/// lives, and scores once per enemy it destroys.
proof fn lemma_shot_hits(w: World, j: int, m: nat)
    requires
        0 <= j < w.projectiles.len(),
        m <= w.enemies.len(),
    ensures
        shot_hits(w, j, m).enemies.len() == w.enemies.len(),
        shot_hits(w, j, m).projectiles.len() == w.projectiles.len(),
        shot_hits(w, j, m).lives == w.lives,
        dead_count(shot_hits(w, j, m).enemies) >= dead_count(w.enemies),
        shot_hits(w, j, m).score == credited_times(
            w.score as int,
            dead_count(shot_hits(w, j, m).enemies) - dead_count(w.enemies),
        ),
    decreases m,
{
    if m > 0 {
        lemma_shot_hits(w, j, (m - 1) as nat);
        let s = shot_hits(w, j, (m - 1) as nat);
        let k = m - 1;
        let e = s.enemies[k];
        let p = s.projectiles[j];
        if let (Some(pb), Some(eb)) = (p.unit.collision_area_spec(), e.unit.collision_area_spec()) {
            if pb.intersects_spec(eb) {
                lemma_dead_count_kill(s.enemies, k);
            }
        }
    }
}

/// Resolving shots keeps the counts of shots and enemies and the lives, and
/// scores once per enemy a player's shot destroys.
proof fn lemma_shots_resolved(w: World, pbox: Option<Aabb>, now: u64, n: nat)
    requires
        n <= w.projectiles.len(),
    ensures
        shots_resolved(w, pbox, now, n).enemies.len() == w.enemies.len(),
        shots_resolved(w, pbox, now, n).projectiles.len() == w.projectiles.len(),
        shots_resolved(w, pbox, now, n).lives == w.lives,
        dead_count(shots_resolved(w, pbox, now, n).enemies) >= dead_count(w.enemies),
        shots_resolved(w, pbox, now, n).score == credited_times(
            w.score as int,
            dead_count(shots_resolved(w, pbox, now, n).enemies) - dead_count(w.enemies),
        ),
    decreases n,
{
    if n > 0 {
        lemma_shots_resolved(w, pbox, now, (n - 1) as nat);
        let s = shots_resolved(w, pbox, now, (n - 1) as nat);
        if s.projectiles[n - 1].player_owned {
            lemma_shot_hits(s, n - 1, s.enemies.len());
        }
    }
}

/// Ramming keeps the count of enemies, the score and the lives.
proof fn lemma_rammed(w: World, pbox: Aabb, now: u64, n: nat)
    requires
        n <= w.enemies.len(),
    ensures
        rammed(w, pbox, now, n).enemies.len() == w.enemies.len(),
        rammed(w, pbox, now, n).projectiles == w.projectiles,
        rammed(w, pbox, now, n).lives == w.lives,
        rammed(w, pbox, now, n).score == w.score,
    decreases n,
{
    if n > 0 {
        lemma_rammed(w, pbox, now, (n - 1) as nat);
    }
}

/// Escapes cost one life each, down to zero, and leave the enemies not yet
/// checked as they were.
proof fn lemma_lives_lost(w: World, area: Aabb, n: nat)
    requires
        n <= w.enemies.len(),
    ensures
        lives_lost(w, area, n).enemies.len() == w.enemies.len(),
        forall|k: int| n <= k < w.enemies.len() ==> #[trigger] lives_lost(w, area, n).enemies[k] == w.enemies[k],
        lives_lost(w, area, n).score == w.score,
        lives_lost(w, area, n).lives <= w.lives,
        w.lives >= 0 ==> lives_lost(w, area, n).lives >= 0,
        w.lives >= escape_count(w.enemies, area, n) ==> lives_lost(w, area, n).lives == w.lives
            - escape_count(w.enemies, area, n),
        w.lives >= 0 && w.lives < escape_count(w.enemies, area, n) ==> lives_lost(w, area, n).lives == 0,
        escape_count(w.enemies, area, n) == 0 ==> lives_lost(w, area, n).lives == w.lives,
    decreases n,
{
    if n > 0 {
        lemma_lives_lost(w, area, (n - 1) as nat);
    }
}

/// Enemies that escape during a step at `now`.
pub open spec fn escapes_in_step(w: World, ps: PlaySpace, now: u64) -> nat {
    if !w.player.unit.is_dead {
        let a = integrated(w);
        let b = collided(a, a.player.unit.collision_area_spec(), now);
        escape_count(b.enemies, ps.life_loss_area_aabb, b.enemies.len())
    } else {
        0
    }
}

/// Lives never rise in a step and never fall below zero; they fall by
/// one for each enemy that escapes, down to zero.
pub proof fn lemma_step_lives(w: World, ps: PlaySpace, now: u64)
    ensures
        stepped(w, ps, now).lives <= w.lives,
        w.lives >= 0 ==> stepped(w, ps, now).lives >= 0,
        w.lives >= escapes_in_step(w, ps, now) ==> stepped(w, ps, now).lives == w.lives - escapes_in_step(
            w,
            ps,
            now,
        ),
        w.lives >= 0 && w.lives < escapes_in_step(w, ps, now) ==> stepped(w, ps, now).lives == 0,
        escapes_in_step(w, ps, now) == 0 ==> stepped(w, ps, now).lives == w.lives,
{
    if !w.player.unit.is_dead {
        let a = integrated(w);
        let pbox = a.player.unit.collision_area_spec();
        let r = match pbox {
            Some(p) => rammed(a, p, now, a.enemies.len()),
            None => a,
        };
        if let Some(p) = pbox {
            lemma_rammed(a, p, now, a.enemies.len());
        }
        lemma_shots_resolved(r, pbox, now, r.projectiles.len());
        let b = collided(a, pbox, now);
        lemma_lives_lost(b, ps.life_loss_area_aabb, b.enemies.len());
    }
}

/// The score never falls in a step, and what the shots add is 150 for each
/// enemy they destroy, held to the range of `u32`.
pub proof fn lemma_step_score(w: World, ps: PlaySpace, now: u64)
    ensures
        stepped(w, ps, now).score >= w.score,
        !w.player.unit.is_dead ==> {
            let a = integrated(w);
            let pbox = a.player.unit.collision_area_spec();
            let r = rammed_all(a, pbox, now);
            let b = collided(a, pbox, now);
            &&& dead_count(b.enemies) >= dead_count(r.enemies)
            &&& stepped(w, ps, now).score == credited_times(
                w.score as int,
                dead_count(b.enemies) - dead_count(r.enemies),
            )
        },
        w.player.unit.is_dead ==> stepped(w, ps, now).score == w.score,
{
    if !w.player.unit.is_dead {
        let a = integrated(w);
        let pbox = a.player.unit.collision_area_spec();
        let r = match pbox {
            Some(p) => rammed(a, p, now, a.enemies.len()),
            None => a,
        };
        if let Some(p) = pbox {
            lemma_rammed(a, p, now, a.enemies.len());
        }
        lemma_shots_resolved(r, pbox, now, r.projectiles.len());
        let b = collided(a, pbox, now);
        lemma_lives_lost(b, ps.life_loss_area_aabb, b.enemies.len());
    }
}

/// An enemy whose box reaches past the right edge of the life-loss area
/// has not escaped, and a check for escapes leaves it alive.
pub proof fn lemma_straddler_stays(w: World, area: Aabb, k: int)
    requires
        0 <= k < w.enemies.len(),
        !w.enemies[k].unit.is_dead,
        w.enemies[k].unit.body.collidable,
        w.enemies[k].unit.body.area_spec().min_x <= area.max_x < w.enemies[k].unit.body.area_spec().max_x,
    ensures
        !escaped(w.enemies[k], area),
        lives_lost(w, area, w.enemies.len()).enemies[k] == w.enemies[k],
{
    lemma_lives_lost_keeps(w, area, w.enemies.len(), k);
}

/// An enemy that has not escaped is left as it was by a check for escapes.
proof fn lemma_lives_lost_keeps(w: World, area: Aabb, n: nat, k: int)
    requires
        n <= w.enemies.len(),
        0 <= k < w.enemies.len(),
        !escaped(w.enemies[k], area),
    ensures
        lives_lost(w, area, n).enemies[k] == w.enemies[k],
    decreases n,
{
    if n > 0 {
        lemma_lives_lost_keeps(w, area, (n - 1) as nat, k);
        lemma_lives_lost(w, area, (n - 1) as nat);
    }
}

} // verus!
