use vstd::prelude::*;
use crate::body::PERMILLE;
use crate::camera::Camera;
use crate::geometry::Vec2;
use crate::entity_manager::{
    EntityManager, collided, credited_times, dead_count, draw_list, escapes_in_step, integrated,
    lemma_step_lives, lemma_step_score, player_fired, rammed_all, stepped,
};
use crate::game_state::{GameState, STARTING_LIVES, World};
use crate::play_space::PlaySpace;
use crate::player::Player;
use crate::unit::SpriteDraw;
use crate::enemy::EnemyType;
use crate::wave_manager::{JITTER_STEPS, SPAWN_RATE, WaveManager, WaveModel, advanced, pending_for};

verus! {

/// Milliseconds between simulation steps (sixty a second, rounded down).
pub const MS_PER_UPDATE: u64 = 16;

/// Milliseconds between frames (a hundred and forty-four a second, rounded down).
pub const MS_PER_FRAME: u64 = 6;

/// The keys the game reacts to.
#[derive(Clone, Copy, Debug, PartialEq, Eq, Structural)]
pub enum Key {
    W,
    S,
    D,
    A,
    Space,
    Escape,
    Other,
}

/// A line of the overlay; the shell lays it out and renders its text.
#[derive(Clone, Copy, Debug, PartialEq, Eq, Structural)]
pub enum OverlayText {
    /// The game's title, centred.
    Title,
    /// "Press SPACE to start!", bottom centre.
    StartPrompt,
    /// "Game Over", centred.
    GameOver,
    /// "Press SPACE to start level n!", bottom centre.
    NextLevel(u32),
    /// "Lives: n", top left.
    Lives(i32),
    /// "Level: n", top centre.
    Level(u32),
    /// "Score: n" with the number padded to six digits, top right.
    Score(u32),
}

/// What the shell should do for a frame.
pub enum FrameAction {
    /// Clear, draw these sprites and then this overlay, present.
    Render { sprites: Vec<SpriteDraw>, overlay: Vec<OverlayText> },
    /// Nothing to draw yet: sleep this many microseconds.
    Sleep { micros: u64 },
}

/// The frame driver: steps the simulation at a fixed rate, turns key
/// events into commands, and says what to draw.
pub struct GameEventHandler {
    /// Time of the last step, in microseconds.
    pub last_update: u64,
    /// Time of the last drawn frame, in microseconds.
    pub last_draw: u64,
    pub wave_manager: WaveManager,
    pub camera: Camera,
    pub game_state: GameState,
}

/// `b - a`, or nothing when `b` comes first.
pub open spec fn elapsed(a: u64, b: u64) -> int {
    if b >= a {
        b - a
    } else {
        0
    }
}

/// One simulation step of the scheduler and the world, with the game in
/// play: the world steps; the scheduler follows when the player's ship was
/// alive as the step began.
pub open spec fn played(m: WaveModel, w: World, ps: PlaySpace, now: u64, draws: Seq<u32>) -> (WaveModel, World) {
    if w.player.unit.is_dead {
        (m, stepped(w, ps, now))
    } else {
        advanced(m, stepped(w, ps, now), now, draws)
    }
}

/// The movement flag a key holds: up, down, right, left.
pub open spec fn key_index(key: Key) -> Option<u16> {
    match key {
        Key::W => Some(0u16),
        Key::S => Some(1u16),
        Key::D => Some(2u16),
        Key::A => Some(3u16),
        _ => None,
    }
}

impl GameEventHandler {
    pub open spec fn wf(&self) -> bool {
        &&& self.game_state.wf()
        &&& self.wave_manager.wf()
    }

    pub open spec fn paused_spec(&self) -> bool {
        !self.game_state.game_started || self.game_state.player_paused
    }

    pub open spec fn over_spec(&self) -> bool {
        self.game_state.lives <= 0
    }

    pub open spec fn wave_complete_spec(&self) -> bool {
        self.wave_manager.view().pending.len() == 0 && self.game_state.enemies.len() == 0
    }

    /// The overlay: title and prompt before the start; afterwards the game
    /// over notice, or the next-level prompt between waves, then lives,
    /// level and score.
    pub open spec fn overlay_spec(&self) -> Seq<OverlayText> {
        if !self.game_state.game_started {
            seq![OverlayText::Title, OverlayText::StartPrompt]
        } else {
            let head = if self.over_spec() {
                seq![OverlayText::GameOver]
            } else if self.wave_complete_spec() {
                seq![OverlayText::NextLevel((self.wave_manager.current_wave_level + 1) as u32)]
            } else {
                Seq::empty()
            };
            head + seq![
                OverlayText::Lives(self.game_state.lives),
                OverlayText::Level(self.wave_manager.current_wave_level),
                OverlayText::Score(self.game_state.score),
            ]
        }
    }

    /// The interpolation value at `now`, in thousandths: none while paused,
    /// else the share of a step's time gone since the last step, at most one.
    pub open spec fn interpolation_spec(&self, now: u64) -> int {
        if self.paused_spec() {
            0
        } else {
            let a = elapsed(self.last_update, now) * 1000 / (MS_PER_UPDATE * 1000) as int;
            if a > 1000 {
                1000
            } else {
                a
            }
        }
    }

    /// A game on a `window_w` by `window_h` pixel window, not yet started,
    /// its clocks set to `now`.
    pub fn new(window_w: u32, window_h: u32, now: u64) -> (r: GameEventHandler)
        ensures
            r.wf(),
            r.last_update == now,
            r.last_draw == now,
            r.camera == (Camera { pos: Vec2 { x: 0, y: 0 }, width: window_w, height: window_h }),
            r.game_state.play_space == PlaySpace::new_spec(window_w, window_h),
            r.game_state.lives == STARTING_LIVES,
            r.game_state.score == 0,
            !r.game_state.game_started,
            !r.game_state.player_paused,
            r.game_state.enemies.len() == 0,
            r.game_state.projectiles.len() == 0,
            r.game_state.particals.len() == 0,
            r.game_state.player == Player::spawned(
                GameState::spawn_point(r.game_state.play_space).0,
                GameState::spawn_point(r.game_state.play_space).1,
            ),
            r.wave_manager.view().level == 1,
            r.wave_manager.view().last_spawn == now,
            !r.wave_manager.view().progress_wave,
            r.wave_manager.view().pending == pending_for(1),
    {
        let play_space = PlaySpace::new(window_w, window_h);
        GameEventHandler {
            last_update: now,
            last_draw: now,
            camera: Camera::new(window_w, window_h),
            wave_manager: WaveManager::new(play_space, now),
            game_state: GameState::new(play_space),
        }
    }

    pub fn is_game_over(&self) -> (r: bool)
        ensures
            r == self.over_spec(),
    {
        self.game_state.lives <= 0
    }

    pub fn is_game_paused(&self) -> (r: bool)
        ensures
            r == self.paused_spec(),
    {
        !self.game_state.game_started || self.game_state.player_paused
    }

    /// The wave has nothing left to spawn and no enemy remains.
    pub fn is_wave_complete(&self) -> (r: bool)
        ensures
            r == self.wave_complete_spec(),
    {
        self.wave_manager.wave_spawn_complete() && EntityManager::get_enemy_count(&self.game_state) == 0
    }

    /// Every entity but the player's ship is alive.
    pub open spec fn none_dead(&self) -> bool {
        &&& forall|i: int|
            0 <= i < self.game_state.enemies.len() ==> !(#[trigger] self.game_state.enemies@[i]).unit.is_dead
        &&& forall|i: int|
            0 <= i < self.game_state.projectiles.len() ==> !(
            #[trigger] self.game_state.projectiles@[i]).unit.is_dead
        &&& forall|i: int|
            0 <= i < self.game_state.particals.len() ==> !(#[trigger] self.game_state.particals@[i]).unit.is_dead
    }

    /// One simulation step at `now`, unless the game is paused, not started
    /// or over.
    pub fn update_game(&mut self, now: u64, draws: &Vec<u32>)
        requires
            old(self).wf(),
            draws.len() >= SPAWN_RATE,
            forall|t: int| 0 <= t < draws.len() ==> #[trigger] draws@[t] < JITTER_STEPS,
        ensures
            final(self).wf(),
            final(self).game_state.settings() == old(self).game_state.settings(),
            final(self).camera == old(self).camera,
            final(self).last_update == old(self).last_update,
            final(self).last_draw == old(self).last_draw,
            (final(self).wave_manager.view(), final(self).game_state.world()) == if old(self).paused_spec()
                || old(self).over_spec() {
                (old(self).wave_manager.view(), old(self).game_state.world())
            } else {
                played(
                    old(self).wave_manager.view(),
                    old(self).game_state.world(),
                    old(self).game_state.play_space,
                    now,
                    draws@,
                )
            },
            0 <= final(self).game_state.lives <= STARTING_LIVES,
            final(self).game_state.lives <= old(self).game_state.lives,
            final(self).game_state.lives < old(self).game_state.lives ==> escapes_in_step(
                old(self).game_state.world(),
                old(self).game_state.play_space,
                now,
            ) > 0,
            final(self).game_state.score >= old(self).game_state.score,
            exists|k: nat| final(self).game_state.score == #[trigger] credited_times(old(self).game_state.score as int, k as int),
            !old(self).paused_spec() && !old(self).over_spec() && !old(self).game_state.player.unit.is_dead
                ==> final(self).none_dead(),
    {
        proof {
            lemma_play_lives_and_score(
                self.wave_manager.view(),
                self.game_state.world(),
                self.game_state.play_space,
                now,
                draws@,
            );
            let s0 = self.game_state.score as int;
            assert(s0 == credited_times(s0, 0));
        }
        if !self.is_game_paused() && !self.is_game_over() {
            let alive = EntityManager::is_player_alive(&self.game_state);
            EntityManager::update(&mut self.game_state, now);
            if alive {
                let ghost before = self.game_state.enemies@;
                let ghost m = self.wave_manager.view();
                self.wave_manager.update(&mut self.game_state, now, draws);
                proof {
                    let l = m.leveled();
                    assert forall|i: int| 0 <= i < self.game_state.enemies.len() implies !(
                    #[trigger] self.game_state.enemies@[i]).unit.is_dead by {
                        if i >= before.len() {
                            let t = i - before.len();
                            let kind = l.pending[l.pending.len() - 1 - t];
                            match kind {
                                EnemyType::NormalDrone => {},
                            }
                        } else {
                            assert(!before[i].unit.is_dead);
                        }
                    }
                }
            }
        }
    }

    /// The frame driver's tick at `now`, with the given spawn draws: one
    /// simulation step once a step's time has passed since the last.
    pub fn update_with_draws(&mut self, now: u64, draws: &Vec<u32>)
        requires
            old(self).wf(),
            draws.len() >= SPAWN_RATE,
            forall|t: int| 0 <= t < draws.len() ==> #[trigger] draws@[t] < JITTER_STEPS,
        ensures
            final(self).wf(),
            final(self).game_state.settings() == old(self).game_state.settings(),
            final(self).camera == old(self).camera,
            final(self).last_draw == old(self).last_draw,
            elapsed(old(self).last_update, now) >= MS_PER_UPDATE * 1000 ==> {
                &&& final(self).last_update == now
                &&& (final(self).wave_manager.view(), final(self).game_state.world()) == if old(self).paused_spec()
                    || old(self).over_spec() {
                    (old(self).wave_manager.view(), old(self).game_state.world())
                } else {
                    played(
                        old(self).wave_manager.view(),
                        old(self).game_state.world(),
                        old(self).game_state.play_space,
                        now,
                        draws@,
                    )
                }
            },
            elapsed(old(self).last_update, now) < MS_PER_UPDATE * 1000 ==> {
                &&& final(self).last_update == old(self).last_update
                &&& final(self).wave_manager.view() == old(self).wave_manager.view()
                &&& final(self).game_state.world() == old(self).game_state.world()
            },
    {
        if now >= self.last_update && now - self.last_update >= MS_PER_UPDATE * 1000 {
            self.update_game(now, draws);
            self.last_update = now;
        }
    }

    /// The frame driver's tick at `now`, with spawn draws from the thread's
    /// random number generator.
    pub fn update(&mut self, now: u64)
        requires
            old(self).wf(),
        ensures
            final(self).wf(),
            final(self).game_state.settings() == old(self).game_state.settings(),
            final(self).camera == old(self).camera,
            final(self).last_draw == old(self).last_draw,
            elapsed(old(self).last_update, now) >= MS_PER_UPDATE * 1000 ==> final(self).last_update == now,
            elapsed(old(self).last_update, now) < MS_PER_UPDATE * 1000 ==> {
                &&& final(self).last_update == old(self).last_update
                &&& final(self).wave_manager.view() == old(self).wave_manager.view()
                &&& final(self).game_state.world() == old(self).game_state.world()
            },
            old(self).paused_spec() || old(self).over_spec() ==> {
                &&& final(self).wave_manager.view() == old(self).wave_manager.view()
                &&& final(self).game_state.world() == old(self).game_state.world()
            },
            elapsed(old(self).last_update, now) >= MS_PER_UPDATE * 1000 && !old(self).paused_spec()
                && !old(self).over_spec() ==> exists|draws: Seq<u32>|
                {
                    &&& draws.len() == SPAWN_RATE
                    &&& forall|t: int| 0 <= t < draws.len() ==> #[trigger] draws[t] < JITTER_STEPS
                    &&& (final(self).wave_manager.view(), final(self).game_state.world()) == played(
                        old(self).wave_manager.view(),
                        old(self).game_state.world(),
                        old(self).game_state.play_space,
                        now,
                        draws,
                    )
                },
    {
        let draws = self.wave_manager.draw_jitters();
        self.update_with_draws(now, &draws);
        assert(forall|t: int| 0 <= t < draws@.len() ==> #[trigger] draws@[t] < JITTER_STEPS);
    }

    /// The interpolation value at `now`, in thousandths of a step.
    pub fn get_interpolation_value(&self, now: u64) -> (r: u32)
        ensures
            r == self.interpolation_spec(now),
            r <= PERMILLE,
    {
        if self.is_game_paused() {
            0
        } else {
            let gone: u64 = if now >= self.last_update {
                now - self.last_update
            } else {
                0
            };
            let a: u64 = gone / MS_PER_UPDATE;
            if a > 1000 {
                1000
            } else {
                a as u32
            }
        }
    }

    pub fn draw_overlay(&self) -> (r: Vec<OverlayText>)
        requires
            self.wf(),
        ensures
            r@ == self.overlay_spec(),
    {
        let mut out: Vec<OverlayText> = Vec::new();
        if !self.game_state.game_started {
            out.push(OverlayText::Title);
            out.push(OverlayText::StartPrompt);
        } else {
            if self.is_game_over() {
                out.push(OverlayText::GameOver);
            } else if self.is_wave_complete() {
                out.push(OverlayText::NextLevel(self.wave_manager.get_wave_level() + 1));
            }
            out.push(OverlayText::Lives(self.game_state.lives));
            out.push(OverlayText::Level(self.wave_manager.get_wave_level()));
            out.push(OverlayText::Score(self.game_state.score));
        }
        assert(out@ =~= self.overlay_spec());
        out
    }

    /// The frame at `now`: once a frame's time has passed since the last
    /// one, the sprites and overlay to draw; else how long to sleep, a third
    /// of the time left.
    pub fn draw(&mut self, now: u64) -> (r: FrameAction)
        requires
            old(self).wf(),
        ensures
            final(self).wf(),
            final(self).game_state == old(self).game_state,
            final(self).wave_manager == old(self).wave_manager,
            final(self).camera == old(self).camera,
            final(self).last_update == old(self).last_update,
            elapsed(old(self).last_draw, now) >= MS_PER_FRAME * 1000 ==> final(self).last_draw == now,
            elapsed(old(self).last_draw, now) >= MS_PER_FRAME * 1000 ==> (r matches FrameAction::Render {
                sprites,
                overlay,
            } && sprites@ == draw_list(
                &old(self).game_state,
                old(self).interpolation_spec(now),
                old(self).camera,
            ) && overlay@ == old(self).overlay_spec()),
            elapsed(old(self).last_draw, now) < MS_PER_FRAME * 1000 ==> final(self).last_draw
                == old(self).last_draw,
            elapsed(old(self).last_draw, now) < MS_PER_FRAME * 1000 ==> (r matches FrameAction::Sleep {
                micros,
            } && micros == (MS_PER_FRAME * 1000 - elapsed(old(self).last_draw, now)) / 3),
    {
        let gone: u64 = if now >= self.last_draw {
            now - self.last_draw
        } else {
            0
        };
        if gone >= MS_PER_FRAME * 1000 {
            let alpha = self.get_interpolation_value(now);
            let sprites = EntityManager::draw(&self.game_state, alpha, &self.camera);
            let overlay = self.draw_overlay();
            self.last_draw = now;
            FrameAction::Render { sprites, overlay }
        } else {
            FrameAction::Sleep { micros: (MS_PER_FRAME * 1000 - gone) / 3 }
        }
    }

    /// The movement flag a key holds.
    fn key_dir(key: Key) -> (r: Option<u16>)
        ensures
            r == key_index(key),
    {
        match key {
            Key::W => Some(0),
            Key::S => Some(1),
            Key::D => Some(2),
            Key::A => Some(3),
            _ => None,
        }
    }

    /// A key goes down: a movement key sets its flag on a live ship; Space,
    /// unless the press repeats, fires.
    pub fn key_down_event(&mut self, key: Key, repeat: bool)
        requires
            old(self).wf(),
        ensures
            final(self).wf(),
            final(self).wave_manager == old(self).wave_manager,
            final(self).camera == old(self).camera,
            final(self).last_update == old(self).last_update,
            final(self).last_draw == old(self).last_draw,
            final(self).game_state.settings() == old(self).game_state.settings(),
            key_index(key) is Some ==> {
                let d = key_index(key)->Some_0;
                &&& final(self).game_state.world() == (World {
                    player: final(self).game_state.player,
                    ..old(self).game_state.world()
                })
                &&& Player::same_but_flags(final(self).game_state.player, old(self).game_state.player)
                &&& final(self).game_state.player.move_dir@ == if old(self).game_state.player.unit.is_dead {
                    old(self).game_state.player.move_dir@
                } else {
                    old(self).game_state.player.move_dir@.update(d as int, true)
                }
            },
            key == Key::Space && !repeat ==> final(self).game_state.world() == player_fired(
                old(self).game_state.world(),
            ),
            key_index(key) is None && !(key == Key::Space && !repeat) ==> final(self).game_state.world()
                == old(self).game_state.world(),
    {
        if let Some(d) = GameEventHandler::key_dir(key) {
            EntityManager::player_move(&mut self.game_state, d);
        } else if key == Key::Space && !repeat {
            EntityManager::player_fire(&mut self.game_state);
        }
    }

    /// A key comes up: a movement key clears its flag on a live ship;
    /// Escape toggles the pause; Space starts the game and, between waves,
    /// asks for the next level.
    pub fn key_up_event(&mut self, key: Key)
        requires
            old(self).wf(),
        ensures
            final(self).wf(),
            final(self).camera == old(self).camera,
            final(self).last_update == old(self).last_update,
            final(self).last_draw == old(self).last_draw,
            final(self).game_state.play_space == old(self).game_state.play_space,
            key_index(key) is Some ==> {
                let d = key_index(key)->Some_0;
                &&& final(self).wave_manager == old(self).wave_manager
                &&& final(self).game_state.settings() == old(self).game_state.settings()
                &&& final(self).game_state.world() == (World {
                    player: final(self).game_state.player,
                    ..old(self).game_state.world()
                })
                &&& Player::same_but_flags(final(self).game_state.player, old(self).game_state.player)
                &&& final(self).game_state.player.move_dir@ == if old(self).game_state.player.unit.is_dead {
                    old(self).game_state.player.move_dir@
                } else {
                    old(self).game_state.player.move_dir@.update(d as int, false)
                }
            },
            key == Key::Escape ==> {
                &&& final(self).wave_manager == old(self).wave_manager
                &&& final(self).game_state.world() == old(self).game_state.world()
                &&& final(self).game_state.game_started == old(self).game_state.game_started
                &&& final(self).game_state.player_paused == !old(self).game_state.player_paused
            },
            key == Key::Space ==> {
                &&& final(self).game_state.world() == old(self).game_state.world()
                &&& final(self).game_state.game_started
                &&& final(self).game_state.player_paused == old(self).game_state.player_paused
                &&& final(self).wave_manager.view() == if old(self).wave_complete_spec() {
                    WaveModel { progress_wave: true, ..old(self).wave_manager.view() }
                } else {
                    old(self).wave_manager.view()
                }
            },
            key == Key::Other ==> {
                &&& final(self).wave_manager == old(self).wave_manager
                &&& final(self).game_state.settings() == old(self).game_state.settings()
                &&& final(self).game_state.world() == old(self).game_state.world()
            },
    {
        if let Some(d) = GameEventHandler::key_dir(key) {
            EntityManager::player_move_cancel(&mut self.game_state, d);
        } else if key == Key::Escape {
            self.game_state.player_paused = !self.game_state.player_paused;
        } else if key == Key::Space {
            self.game_state.game_started = true;
            if self.is_wave_complete() {
                self.wave_manager.set_to_progress_level();
            }
        }
    }
}

/// Across a step in play lives stay at zero or above, never rise, and
/// fall only when an enemy escapes; the score never falls and rises by 150
/// for each enemy a shot destroys (held to the range of `u32`).
pub proof fn lemma_play_lives_and_score(
    m: WaveModel,
    w: World,
    ps: PlaySpace,
    now: u64,
    draws: Seq<u32>,
)
    ensures
        played(m, w, ps, now, draws).1.lives <= w.lives,
        w.lives >= 0 ==> played(m, w, ps, now, draws).1.lives >= 0,
        played(m, w, ps, now, draws).1.lives < w.lives ==> escapes_in_step(w, ps, now) > 0,
        w.lives >= escapes_in_step(w, ps, now) ==> played(m, w, ps, now, draws).1.lives == w.lives
            - escapes_in_step(w, ps, now),
        played(m, w, ps, now, draws).1.score >= w.score,
        exists|k: nat| played(m, w, ps, now, draws).1.score == #[trigger] credited_times(w.score as int, k as int),
{
    lemma_step_lives(w, ps, now);
    lemma_step_score(w, ps, now);
    if !w.player.unit.is_dead {
        let a = integrated(w);
        let pbox = a.player.unit.collision_area_spec();
        let r = rammed_all(a, pbox, now);
        let b = collided(a, pbox, now);
        let k = (dead_count(b.enemies) - dead_count(r.enemies)) as nat;
        assert(played(m, w, ps, now, draws).1.score == credited_times(w.score as int, k as int));
    } else {
        assert(played(m, w, ps, now, draws).1.score == credited_times(w.score as int, 0));
    }
}

} // verus!
