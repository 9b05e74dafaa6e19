use vstd::prelude::*;
use rand::Rng;
use crate::enemy::{Enemy, EnemyType};
use crate::entity_manager::EntityManager;
use crate::game_state::{GameState, World};
use crate::geometry::Vec2;
use crate::play_space::{MAX_WINDOW_EXTENT, PlaySpace};

verus! {

/// Levels stop rising here, where a wave's size would leave `u32`.
pub const MAX_WAVE_LEVEL: u32 = 1431655765;

/// Enemies spawned at once.
pub const SPAWN_RATE: u32 = 1;

/// A spawn draw is a whole number below this, standing for a fraction of one.
pub const JITTER_STEPS: u32 = 1000;

/// How far right of the player's area enemies spawn, in world units.
pub const SPAWN_X_OFFSET: i64 = 20000;

/// How far left of the spawn origin an enemy appears, in world units.
pub const SPAWN_X_INSET: i64 = 25000;

/// Height left out of the spawn band, in world units.
pub const SPAWN_MARGIN: i64 = 100000;

/// The enemies of one level and how fast they come.
pub struct Wave {
    pub spawn_rate: u32,
    pub spawn_delay_ms: u64,
    /// Enemies still to spawn; the last one comes first.
    pub remaining_enemies: Vec<EnemyType>,
}

/// Brings on the waves: one per level, each spawned a batch at a time.
pub struct WaveManager {
    pub progress_wave: bool,
    pub spawn_origin: Vec2,
    /// Height of the band that enemies spawn in.
    pub spawn_range: i64,
    pub current_wave_level: u32,
    pub current_wave: Wave,
    /// When the last batch spawned, in microseconds.
    pub last_spawn: u64,
}

/// What a wave scheduler holds, as plain values.
pub struct WaveModel {
    pub progress_wave: bool,
    pub spawn_origin: Vec2,
    pub spawn_range: i64,
    pub level: u32,
    pub spawn_rate: u32,
    pub spawn_delay_ms: u64,
    pub pending: Seq<EnemyType>,
    pub last_spawn: u64,
}

/// Delay between batches at level `level`: 100 ms less per level from one
/// second, and never under 100 ms.
pub open spec fn delay_for(level: int) -> int {
    if 1000 - 100 * level > 100 {
        1000 - 100 * level
    } else {
        100
    }
}

/// Three drones per level.
pub open spec fn pending_for(level: int) -> Seq<EnemyType> {
    Seq::new((3 * level) as nat, |i: int| EnemyType::NormalDrone)
}

/// `range * (d / 1000 - 1/2)`, each product rounded toward zero; a
/// negative `range` mirrors the offsets of the positive one.
pub open spec fn jitter_offset(range: int, d: int) -> int {
    if range >= 0 {
        range * d / 1000 - range / 2
    } else {
        -((-range) * d / 1000 - (-range) / 2)
    }
}

/// The enemy of kind `kind` at `(x, y)`.
pub open spec fn enemy_of(kind: EnemyType, x: i64, y: i64) -> Enemy {
    match kind {
        EnemyType::NormalDrone => Enemy::drone(x, y),
    }
}

impl WaveModel {
    pub open spec fn wf(self) -> bool {
        &&& 1 <= self.level <= MAX_WAVE_LEVEL
        &&& self.spawn_rate == SPAWN_RATE
        &&& 100 <= self.spawn_delay_ms <= 1000
        &&& -MAX_WINDOW_EXTENT <= self.spawn_range <= MAX_WINDOW_EXTENT
        &&& -MAX_WINDOW_EXTENT <= self.spawn_origin.y <= MAX_WINDOW_EXTENT
        &&& -MAX_WINDOW_EXTENT <= self.spawn_origin.x <= 2 * MAX_WINDOW_EXTENT
    }

    /// The scheduler once a requested level change has happened: when the
    /// wave has no enemy left to spawn and the next level was asked for,
    /// the level rises (up to its cap) with a fresh wave.
    pub open spec fn leveled(self) -> WaveModel {
        if self.pending.len() == 0 && self.progress_wave {
            if self.level < MAX_WAVE_LEVEL {
                WaveModel {
                    level: (self.level + 1) as u32,
                    spawn_rate: SPAWN_RATE,
                    spawn_delay_ms: delay_for(self.level + 1) as u64,
                    pending: pending_for(self.level + 1),
                    progress_wave: false,
                    ..self
                }
            } else {
                WaveModel { progress_wave: false, ..self }
            }
        } else {
            self
        }
    }

    /// A batch is due at `now`.
    pub open spec fn due(self, now: u64) -> bool {
        now >= self.last_spawn && now - self.last_spawn >= self.spawn_delay_ms * 1000
    }

    /// Where a spawn with draw `d` puts an enemy: left of the origin, at
    /// `range * (d / 1000 - 1/2)` from it vertically.
    pub open spec fn spawn_point_spec(self, d: int) -> (i64, i64) {
        (
            (self.spawn_origin.x - SPAWN_X_INSET) as i64,
            (self.spawn_origin.y + jitter_offset(self.spawn_range as int, d)) as i64,
        )
    }

    /// How many enemies a batch takes.
    pub open spec fn batch_len(self) -> int {
        if self.spawn_rate < self.pending.len() {
            self.spawn_rate as int
        } else {
            self.pending.len() as int
        }
    }

    /// The first `k` enemies of a batch, from the end of the pending list,
    /// the `t`-th placed by draw `draws[t]`.
    pub open spec fn batch(self, k: int, draws: Seq<u32>) -> Seq<Enemy> {
        Seq::new(
            k as nat,
            |t: int|
                enemy_of(
                    self.pending[self.pending.len() - 1 - t],
                    self.spawn_point_spec(draws[t] as int).0,
                    self.spawn_point_spec(draws[t] as int).1,
                ),
        )
    }
}

/// The scheduler and the world after one tick of the scheduler at `now`:
/// the level changes if asked, then a batch spawns if its delay has passed.
pub open spec fn advanced(m: WaveModel, w: World, now: u64, draws: Seq<u32>) -> (WaveModel, World) {
    let l = m.leveled();
    if l.due(now) {
        (
            WaveModel { pending: l.pending.subrange(0, l.pending.len() - l.batch_len()), last_spawn: now, ..l },
            World { enemies: w.enemies + l.batch(l.batch_len(), draws), ..w },
        )
    } else {
        (l, w)
    }
}

/// Relies on rand's `thread_rng` and `Rng::gen_range`: a number in
/// `[0, bound)`.
#[verifier::external_body]
fn random_below(bound: u32) -> (r: u32)
    requires
        bound > 0,
    ensures
        r < bound,
{
    rand::thread_rng().gen_range(0, bound)
}

impl WaveManager {
    pub open spec fn view(&self) -> WaveModel {
        WaveModel {
            progress_wave: self.progress_wave,
            spawn_origin: self.spawn_origin,
            spawn_range: self.spawn_range,
            level: self.current_wave_level,
            spawn_rate: self.current_wave.spawn_rate,
            spawn_delay_ms: self.current_wave.spawn_delay_ms,
            pending: self.current_wave.remaining_enemies@,
            last_spawn: self.last_spawn,
        }
    }

    pub open spec fn wf(&self) -> bool {
        self.view().wf()
    }

    /// The wave of level `wave_level`: one enemy at a time, `max(100, 1000
    /// - 100 * level)` ms apart, `3 * level` drones.
    pub fn create_wave(wave_level: u32) -> (r: Wave)
        requires
            1 <= wave_level <= MAX_WAVE_LEVEL,
        ensures
            r.spawn_rate == SPAWN_RATE,
            r.spawn_delay_ms == delay_for(wave_level as int),
            r.remaining_enemies@ == pending_for(wave_level as int),
    {
        let mut enemies: Vec<EnemyType> = Vec::new();
        let n: u32 = wave_level * 3;
        let mut i: u32 = 0;
        while i < n
            invariant
                0 <= i <= n,
                n == wave_level * 3,
                enemies@ == Seq::new(i as nat, |k: int| EnemyType::NormalDrone),
            decreases n - i,
        {
            enemies.push(EnemyType::NormalDrone);
            i = i + 1;
            assert(enemies@ =~= Seq::new(i as nat, |k: int| EnemyType::NormalDrone));
        }
        let spawn_delay_ms: u64 = if wave_level < 9 {
            1000 - wave_level as u64 * 100
        } else {
            100
        };
        Wave { spawn_rate: SPAWN_RATE, spawn_delay_ms, remaining_enemies: enemies }
    }

    /// A scheduler on level one, last spawned at `now`, spawning right of
    /// the player's area, across its middle.
    pub fn new(play_space: PlaySpace, now: u64) -> (r: WaveManager)
        requires
            play_space.wf(),
        ensures
            r.wf(),
            r.view() == (WaveModel {
                progress_wave: false,
                spawn_origin: Vec2 {
                    x: (play_space.player_area.w + SPAWN_X_OFFSET) as i64,
                    y: (play_space.player_area.h / 2) as i64,
                },
                spawn_range: (play_space.player_area.h - SPAWN_MARGIN) as i64,
                level: 1,
                spawn_rate: SPAWN_RATE,
                spawn_delay_ms: 900,
                pending: pending_for(1),
                last_spawn: now,
            }),
    {
        let h = play_space.player_area.h;
        WaveManager {
            progress_wave: false,
            spawn_origin: Vec2::new(play_space.player_area.w + SPAWN_X_OFFSET, h / 2),
            spawn_range: h - SPAWN_MARGIN,
            current_wave_level: 1,
            current_wave: WaveManager::create_wave(1),
            last_spawn: now,
        }
    }

    /// Where a spawn with draw `d` puts an enemy.
    pub fn get_spawn_point(&self, d: u32) -> (r: (i64, i64))
        requires
            self.wf(),
            d < JITTER_STEPS,
        ensures
            r == self.view().spawn_point_spec(d as int),
    {
        let range = if self.spawn_range >= 0 {
            self.spawn_range
        } else {
            -self.spawn_range
        };
        assert(0 <= range * d <= MAX_WINDOW_EXTENT * 1000) by (nonlinear_arith)
            requires
                0 <= range <= MAX_WINDOW_EXTENT,
                0 <= d < 1000,
        ;
        assert(range * d / 1000 <= range) by (nonlinear_arith)
            requires
                0 <= range,
                0 <= d < 1000,
        ;
        let part: i64 = range * d as i64 / JITTER_STEPS as i64 - range / 2;
        let offset: i64 = if self.spawn_range >= 0 {
            part
        } else {
            -part
        };
        (self.spawn_origin.x - SPAWN_X_INSET, self.spawn_origin.y + offset)
    }

    /// Moves to the next level when the wave is spent and that was asked for.
    fn update_wave_level(&mut self)
        requires
            old(self).wf(),
        ensures
            final(self).wf(),
            final(self).view() == old(self).view().leveled(),
    {
        if self.wave_spawn_complete() && self.progress_wave {
            if self.current_wave_level < MAX_WAVE_LEVEL {
                self.current_wave_level = self.current_wave_level + 1;
                self.current_wave = WaveManager::create_wave(self.current_wave_level);
            }
            self.progress_wave = false;
        }
    }

    /// Spawns one batch: pops up to `spawn_rate` enemies from the end of the
    /// pending list, the `t`-th placed by `draws[t]`.
    fn spawn(&mut self, game_state: &mut GameState, draws: &Vec<u32>)
        requires
            old(self).wf(),
            old(game_state).wf(),
            draws.len() >= old(self).current_wave.spawn_rate,
            forall|t: int| 0 <= t < draws.len() ==> #[trigger] draws@[t] < JITTER_STEPS,
        ensures
            final(self).wf(),
            final(self).view() == (WaveModel {
                pending: old(self).view().pending.subrange(
                    0,
                    old(self).view().pending.len() - old(self).view().batch_len(),
                ),
                ..old(self).view()
            }),
            final(game_state).wf(),
            final(game_state).settings() == old(game_state).settings(),
            final(game_state).world() == (World {
                enemies: old(game_state).enemies@ + old(self).view().batch(old(self).view().batch_len(), draws@),
                ..old(game_state).world()
            }),
    {
        let ghost m0 = self.view();
        let ghost w0 = game_state.world();
        let ghost set0 = game_state.settings();
        let rate = self.current_wave.spawn_rate;
        assert(m0.pending.subrange(0, m0.pending.len() as int) =~= m0.pending);
        assert(w0.enemies + m0.batch(0, draws@) =~= w0.enemies);
        let mut i: u32 = 0;
        while i < rate
            invariant
                0 <= i <= rate,
                rate == m0.spawn_rate,
                m0.wf(),
                draws.len() >= rate,
                forall|t: int| 0 <= t < draws.len() ==> #[trigger] draws@[t] < JITTER_STEPS,
                self.wf(),
                self.view() == (WaveModel {
                    pending: m0.pending.subrange(0, m0.pending.len() - (if i < m0.pending.len() { i as int } else { m0.pending.len() as int })),
                    ..m0
                }),
                game_state.wf(),
                game_state.settings() == set0,
                game_state.world() == (World {
                    enemies: w0.enemies + m0.batch(if i < m0.pending.len() { i as int } else { m0.pending.len() as int }, draws@),
                    ..w0
                }),
            decreases rate - i,
        {
            let ghost before = game_state.enemies@;
            if let Some(enemy_type) = self.current_wave.remaining_enemies.pop() {
                let (x, y) = self.get_spawn_point(draws[i as usize]);
                if let Some(enemy) = Enemy::create_enemy_by_key(enemy_type, x, y) {
                    EntityManager::add_enemy(game_state, enemy);
                }
                assert(w0.enemies + m0.batch(i + 1, draws@) =~= before.push(enemy_of(enemy_type, x, y)));
            }
            i = i + 1;
            assert(self.view().pending =~= m0.pending.subrange(0, m0.pending.len() - (if i < m0.pending.len() { i as int } else { m0.pending.len() as int })));
        }
    }

    /// One tick of the scheduler at time `now`: change level if asked,
    /// then spawn a batch if the delay has passed since the last one.
    pub fn update(&mut self, game_state: &mut GameState, now: u64, draws: &Vec<u32>)
        requires
            old(self).wf(),
            old(game_state).wf(),
            draws.len() >= SPAWN_RATE,
            forall|t: int| 0 <= t < draws.len() ==> #[trigger] draws@[t] < JITTER_STEPS,
        ensures
            final(self).wf(),
            final(game_state).wf(),
            final(game_state).settings() == old(game_state).settings(),
            (final(self).view(), final(game_state).world()) == advanced(
                old(self).view(),
                old(game_state).world(),
                now,
                draws@,
            ),
    {
        self.update_wave_level();
        if now >= self.last_spawn && now - self.last_spawn >= self.current_wave.spawn_delay_ms * 1000 {
            self.spawn(game_state, draws);
            self.last_spawn = now;
        }
    }

    /// One spawn draw for each enemy of a batch, from the thread's random
    /// number generator.
    pub fn draw_jitters(&self) -> (r: Vec<u32>)
        requires
            self.wf(),
        ensures
            r.len() == SPAWN_RATE,
            forall|t: int| 0 <= t < r.len() ==> #[trigger] r@[t] < JITTER_STEPS,
    {
        let mut draws: Vec<u32> = Vec::new();
        let mut i: u32 = 0;
        while i < SPAWN_RATE
            invariant
                0 <= i <= SPAWN_RATE,
                draws.len() == i,
                forall|t: int| 0 <= t < draws.len() ==> #[trigger] draws@[t] < JITTER_STEPS,
            decreases SPAWN_RATE - i,
        {
            draws.push(random_below(JITTER_STEPS));
            i = i + 1;
        }
        draws
    }

    /// No enemy of the current wave is left to spawn.
    pub fn wave_spawn_complete(&self) -> (r: bool)
        ensures
            r == (self.view().pending.len() == 0),
    {
        self.current_wave.remaining_enemies.len() == 0
    }

    /// Asks for the next level once the current wave is spent.
    pub fn set_to_progress_level(&mut self)
        ensures
            final(self).view() == (WaveModel { progress_wave: true, ..old(self).view() }),
    {
        self.progress_wave = true;
    }

    pub fn get_wave_level(&self) -> (r: u32)
        ensures
            r == self.current_wave_level,
    {
        self.current_wave_level
    }
}

} // verus!
