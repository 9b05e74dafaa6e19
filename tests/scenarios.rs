use arcade_shooter::enemy::Enemy;
use arcade_shooter::entity_manager::EntityManager;
use arcade_shooter::game_event_handler::{GameEventHandler, Key, OverlayText};
use arcade_shooter::game_state::STARTING_LIVES;
use arcade_shooter::geometry::Vec2;
use arcade_shooter::projectile::Projectile;

const STEP: u64 = 16_000;

fn mid_draw() -> Vec<u32> {
    vec![500]
}

fn started_game() -> GameEventHandler {
    let mut h = GameEventHandler::new(640, 480, 0);
    h.key_up_event(Key::Space);
    h
}

#[test]
fn pre_start_ignores_movement() {
    let mut h = GameEventHandler::new(640, 480, 0);
    h.key_down_event(Key::W, false);
    for k in 1..=5u64 {
        h.update_with_draws(k * STEP, &mid_draw());
    }
    assert!(!h.game_state.game_started);
    assert_eq!(h.game_state.player.unit.body.pos, Vec2 { x: 640_000 / 3, y: 240_000 });
    assert!(h.game_state.projectiles.is_empty());
    assert!(h.game_state.enemies.is_empty());
}

#[test]
fn start_and_fire() {
    let mut h = GameEventHandler::new(640, 480, 0);
    h.key_up_event(Key::Space);
    h.key_down_event(Key::Space, false);
    assert!(h.game_state.game_started);
    assert_eq!(h.game_state.projectiles.len(), 1);
    assert!(h.game_state.projectiles[0].is_player_owned());
    assert_eq!(h.game_state.projectiles[0].unit.body.pos, h.game_state.player.unit.body.pos);
}

#[test]
fn kill_credit_away_from_ship() {
    let mut h = started_game();
    let at = Vec2 { x: 400_000, y: 800_000 };
    h.game_state.projectiles.push(Projectile::new(at.x, at.y, true));
    h.game_state.enemies.push(Enemy::new_drone(at.x + 10_000, at.y));
    h.update_with_draws(STEP, &mid_draw());
    assert!(h.game_state.enemies.is_empty());
    assert!(h.game_state.projectiles.is_empty());
    assert_eq!(h.game_state.particals.len(), 1);
    assert!(!h.game_state.particals[0].unit.is_dead);
    assert_eq!(h.game_state.score, 150);
    // the explosion sits two thirds of the drone's half-width right of it
    assert_eq!(h.game_state.particals[0].unit.body.pos, Vec2 { x: 405_000 + 44_000, y: 800_000 });
}

#[test]
fn kill_credit_next_to_ship_crashes_first() {
    // An enemy ten pixels from the ship touches the ship too: the ship and
    // the enemy collide before the shot is resolved, so the shot scores nothing.
    let mut h = started_game();
    let p = h.game_state.player.unit.body.pos;
    h.game_state.projectiles.push(Projectile::new(p.x, p.y, true));
    h.game_state.enemies.push(Enemy::new_drone(p.x + 10_000, p.y));
    h.update_with_draws(STEP, &mid_draw());
    assert!(h.game_state.enemies.is_empty());
    assert!(h.game_state.player.unit.is_dead);
    assert_eq!(h.game_state.particals.len(), 2);
    assert_eq!(h.game_state.score, 0);
    assert_eq!(h.game_state.projectiles.len(), 1);
}

#[test]
fn life_loss_on_escape() {
    let mut h = started_game();
    h.game_state.enemies.push(Enemy::new_drone(-300_000, 240_000));
    h.update_with_draws(STEP, &mid_draw());
    assert_eq!(h.game_state.lives, STARTING_LIVES - 1);
    assert!(h.game_state.enemies.is_empty());
}

#[test]
fn wave_progression() {
    let mut h = started_game();
    for k in 1..=3u64 {
        h.update_with_draws(k * 900_000, &mid_draw());
        assert_eq!(h.game_state.enemies.len() as u64, k);
    }
    assert!(h.wave_manager.wave_spawn_complete());
    assert!(!h.is_wave_complete());
    for e in h.game_state.enemies.iter_mut() {
        e.unit.is_dead = true;
    }
    h.update_with_draws(2_700_000 + STEP, &mid_draw());
    assert!(h.game_state.enemies.is_empty());
    assert!(h.is_wave_complete());
    assert!(h.draw_overlay().contains(&OverlayText::NextLevel(2)));
    h.key_up_event(Key::Space);
    h.update_with_draws(2_700_000 + 2 * STEP, &mid_draw());
    assert_eq!(h.wave_manager.get_wave_level(), 2);
    assert_eq!(h.wave_manager.current_wave.remaining_enemies.len(), 6);
    assert_eq!(h.wave_manager.current_wave.spawn_delay_ms, 800);
    assert!(h.game_state.enemies.is_empty());
    h.update_with_draws(2_700_000 + 800_000, &mid_draw());
    assert_eq!(h.game_state.enemies.len(), 1);
    assert_eq!(h.wave_manager.current_wave.remaining_enemies.len(), 5);
}

#[test]
fn game_over_is_terminal() {
    let mut h = started_game();
    let mut now = 0;
    while h.game_state.lives > 0 {
        h.game_state.enemies.push(Enemy::new_drone(-300_000, 240_000));
        now += STEP;
        h.update_with_draws(now, &mid_draw());
    }
    assert_eq!(h.game_state.lives, 0);
    assert!(h.is_game_over());
    h.game_state.enemies.push(Enemy::new_drone(300_000, 600_000));
    h.game_state.projectiles.push(Projectile::new(100_000, 600_000, true));
    let enemies = h.game_state.enemies.clone();
    let projectiles = h.game_state.projectiles.clone();
    let score = h.game_state.score;
    for _ in 0..5 {
        now += STEP;
        h.update_with_draws(now, &mid_draw());
    }
    assert_eq!(h.game_state.enemies, enemies);
    assert_eq!(h.game_state.projectiles, projectiles);
    assert_eq!(h.game_state.score, score);
    assert_eq!(h.game_state.lives, 0);
    assert!(h.draw_overlay().contains(&OverlayText::GameOver));
}

#[test]
fn lives_and_score_move_one_way() {
    let mut h = started_game();
    let mut now = 0;
    let mut lives = h.game_state.lives;
    let mut score = h.game_state.score;
    for k in 0..12i64 {
        h.game_state.enemies.push(Enemy::new_drone(-300_000, 240_000));
        h.game_state.projectiles.push(Projectile::new(400_000, 800_000, true));
        h.game_state.enemies.push(Enemy::new_drone(410_000 + k, 800_000));
        now += STEP;
        h.update_with_draws(now, &mid_draw());
        assert!(h.game_state.lives <= lives);
        assert!(h.game_state.lives >= 0 && h.game_state.lives <= STARTING_LIVES);
        assert!(h.game_state.score >= score);
        lives = h.game_state.lives;
        score = h.game_state.score;
    }
    assert_eq!(h.game_state.lives, 0);
    assert_eq!(h.game_state.score, 150 * 10);
}

#[test]
fn random_spawn_lands_in_band() {
    let mut h = started_game();
    h.update(900_000);
    assert_eq!(h.game_state.enemies.len(), 1);
    let wm = &h.wave_manager;
    let y = h.game_state.enemies[0].unit.body.pos.y;
    let low = wm.spawn_origin.y - wm.spawn_range / 2;
    let high = wm.spawn_origin.y + wm.spawn_range / 2;
    assert!(y >= low && y < high, "{} not in [{}, {})", y, low, high);
    assert_eq!(EntityManager::get_enemy_count(&h.game_state), 1);
}
