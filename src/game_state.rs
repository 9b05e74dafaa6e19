use vstd::prelude::*;
use crate::enemy::Enemy;
use crate::particals::Partical;
use crate::play_space::PlaySpace;
use crate::player::Player;
use crate::projectile::Projectile;

verus! {

/// Lives the player starts with.
pub const STARTING_LIVES: i32 = 10;

/// Everything a game holds: flags, counters and all entities.
pub struct GameState {
    pub player_paused: bool,
    pub game_started: bool,
    pub lives: i32,
    pub score: u32,
    pub player: Player,
    pub play_space: PlaySpace,
    pub projectiles: Vec<Projectile>,
    pub enemies: Vec<Enemy>,
    pub particals: Vec<Partical>,
}

/// What a simulation step reads and changes.
pub struct World {
    pub lives: i32,
    pub score: u32,
    pub player: Player,
    pub projectiles: Seq<Projectile>,
    pub enemies: Seq<Enemy>,
    pub particals: Seq<Partical>,
}

impl World {
    pub open spec fn wf(self) -> bool {
        &&& self.player.wf()
        &&& forall|i: int| 0 <= i < self.enemies.len() ==> (#[trigger] self.enemies[i]).wf()
        &&& forall|i: int| 0 <= i < self.projectiles.len() ==> (#[trigger] self.projectiles[i]).wf()
        &&& forall|i: int| 0 <= i < self.particals.len() ==> (#[trigger] self.particals[i]).wf()
    }
}

impl GameState {
    pub open spec fn world(&self) -> World {
        World {
            lives: self.lives,
            score: self.score,
            player: self.player,
            projectiles: self.projectiles@,
            enemies: self.enemies@,
            particals: self.particals@,
        }
    }

    /// What a simulation step leaves alone.
    pub open spec fn settings(&self) -> (bool, bool, PlaySpace) {
        (self.player_paused, self.game_started, self.play_space)
    }

    pub open spec fn wf(&self) -> bool {
        &&& self.player.wf()
        &&& forall|i: int| 0 <= i < self.enemies.len() ==> (#[trigger] self.enemies@[i]).wf()
        &&& forall|i: int| 0 <= i < self.projectiles.len() ==> (#[trigger] self.projectiles@[i]).wf()
        &&& forall|i: int| 0 <= i < self.particals.len() ==> (#[trigger] self.particals@[i]).wf()
        &&& 0 <= self.lives <= STARTING_LIVES
        &&& self.play_space.wf()
    }

    /// Where the player's ship starts: a third of the way across the
    /// player's area, half way up.
    pub open spec fn spawn_point(play_space: PlaySpace) -> (i64, i64) {
        ((play_space.player_area.w / 3) as i64, (play_space.player_area.h / 2) as i64)
    }

    /// A game not yet started, with full lives, no score and no entities
    /// but the player's ship at its spawn point.
    pub fn new(play_space: PlaySpace) -> (r: GameState)
        requires
            play_space.wf(),
        ensures
            r.wf(),
            !r.player_paused,
            !r.game_started,
            r.lives == STARTING_LIVES,
            r.score == 0,
            r.player == Player::spawned(
                GameState::spawn_point(play_space).0,
                GameState::spawn_point(play_space).1,
            ),
            r.play_space == play_space,
            r.projectiles@ == Seq::<Projectile>::empty(),
            r.enemies@ == Seq::<Enemy>::empty(),
            r.particals@ == Seq::<Partical>::empty(),
    {
        let player = Player::new(play_space.player_area.w / 3, play_space.player_area.h / 2);
        GameState {
            player_paused: false,
            game_started: false,
            lives: STARTING_LIVES,
            score: 0,
            player,
            play_space,
            projectiles: Vec::new(),
            enemies: Vec::new(),
            particals: Vec::new(),
        }
    }
}

} // verus!
