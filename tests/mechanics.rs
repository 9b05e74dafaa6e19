use arcade_shooter::asset::Asset;
use arcade_shooter::body::{Body, Velocity};
use arcade_shooter::camera::Camera;
use arcade_shooter::enemy::{Enemy, EnemyType};
use arcade_shooter::entity_manager::EntityManager;
use arcade_shooter::game_event_handler::{FrameAction, GameEventHandler, Key, OverlayText};
use arcade_shooter::game_state::{GameState, STARTING_LIVES};
use arcade_shooter::geometry::{Aabb, Rect, Vec2};
use arcade_shooter::particals::Partical;
use arcade_shooter::play_space::PlaySpace;
use arcade_shooter::player::Player;
use arcade_shooter::projectile::Projectile;
use arcade_shooter::unit::Unit;
use arcade_shooter::wave_manager::WaveManager;

fn started_state() -> GameState {
    let mut gs = GameState::new(PlaySpace::new(640, 480));
    gs.game_started = true;
    gs
}

#[test]
fn looping_animation_returns_to_first_frame() {
    let body = Body::new(0, 0, 10, 10, 100, 100, 0, true);
    let mut u = Unit::new(body, Asset::Drone1, 2, 3, true);
    for k in 1..6u32 {
        u.update();
        assert_eq!(u.animation.frame, k);
    }
    u.update();
    assert_eq!(u.animation.frame, 0);
    assert!(!u.is_dead);
}

#[test]
fn one_shot_animation_dies_past_last_frame() {
    let mut p = Partical::new_drone_death(0, 0);
    for _ in 0..63 {
        p.unit.update();
    }
    assert_eq!(p.unit.animation.frame, 63);
    assert!(!p.unit.is_dead);
    assert_eq!(p.unit.sheet_cell(), (7, 7));
    p.unit.update();
    assert!(p.unit.is_dead);
    assert_eq!(p.unit.animation.frame, 63);
}

#[test]
fn sheet_cell_counts_rows_of_columns() {
    let mut p = Partical::new_drone_death(0, 0);
    for _ in 0..10 {
        p.unit.update();
    }
    assert_eq!(p.unit.sheet_cell(), (2, 1));
}

#[test]
fn wave_factory_sizes_and_delays() {
    for (level, delay) in [(1u32, 900u64), (5, 500), (9, 100), (12, 100)] {
        let w = WaveManager::create_wave(level);
        assert_eq!(w.remaining_enemies.len() as u32, 3 * level);
        assert!(w.remaining_enemies.iter().all(|k| *k == EnemyType::NormalDrone));
        assert_eq!(w.spawn_delay_ms, delay);
        assert_eq!(w.spawn_rate, 1);
    }
}

#[test]
fn touching_edges_count_as_a_hit() {
    let mut gs = started_state();
    // after one tick the shot's right edge (x + 16) meets the drone's left edge (x - 33)
    gs.projectiles.push(Projectile::new(500_000, 700_000, true));
    gs.enemies.push(Enemy::new_drone(569_000, 700_000));
    EntityManager::update(&mut gs, 1);
    assert_eq!(gs.score, 150);
    assert!(gs.enemies.is_empty());
}

#[test]
fn a_gap_of_one_unit_is_a_miss() {
    let mut gs = started_state();
    gs.projectiles.push(Projectile::new(500_000, 700_000, true));
    gs.enemies.push(Enemy::new_drone(569_001, 700_000));
    EntityManager::update(&mut gs, 1);
    assert_eq!(gs.score, 0);
    assert_eq!(gs.enemies.len(), 1);
    assert_eq!(gs.projectiles.len(), 1);
}

#[test]
fn touching_boxes_intersect() {
    let a = Aabb { min_x: 0, min_y: 0, max_x: 10, max_y: 10 };
    let b = Aabb { min_x: 10, min_y: 10, max_x: 20, max_y: 20 };
    let c = Aabb { min_x: 11, min_y: 0, max_x: 20, max_y: 10 };
    assert!(a.intersects(&b) && b.intersects(&a));
    assert!(!a.intersects(&c));
}

#[test]
fn straddling_enemy_costs_no_life() {
    let mut gs = started_state();
    // after one tick the drone sits at x = 10 px, its box from -23 to 43 px
    gs.enemies.push(Enemy::new_drone(15_000, 240_000));
    let lost = EntityManager::update_life_lost(&mut gs);
    assert_eq!(lost, 0);
    EntityManager::update(&mut gs, 1);
    assert_eq!(gs.lives, STARTING_LIVES);
    assert_eq!(gs.enemies.len(), 1);
    assert!(!gs.enemies[0].unit.is_dead);
}

#[test]
fn enemy_wholly_inside_costs_a_life() {
    let mut gs = started_state();
    gs.enemies.push(Enemy::new_drone(-40_000, 240_000));
    gs.enemies.push(Enemy::new_drone(-500_000, 240_000));
    let lost = EntityManager::update_life_lost(&mut gs);
    assert_eq!(lost, 2);
    assert_eq!(gs.lives, STARTING_LIVES - 2);
    assert!(gs.enemies.iter().all(|e| e.unit.is_dead));
}

#[test]
fn dead_ship_does_not_fire() {
    let mut gs = started_state();
    gs.player.set_dead(7);
    EntityManager::player_fire(&mut gs);
    assert!(gs.projectiles.is_empty());
    assert_eq!(EntityManager::get_player_last_death(&gs), 7);
    EntityManager::player_move(&mut gs, 0);
    assert_eq!(gs.player.move_dir, [false; 4]);
}

#[test]
fn held_space_fires_once() {
    let mut h = GameEventHandler::new(640, 480, 0);
    h.key_up_event(Key::Space);
    h.key_down_event(Key::Space, false);
    for _ in 0..4 {
        h.key_down_event(Key::Space, true);
    }
    assert_eq!(h.game_state.projectiles.len(), 1);
    h.key_up_event(Key::Space);
    h.key_down_event(Key::Space, false);
    assert_eq!(h.game_state.projectiles.len(), 2);
}

#[test]
fn movement_flags_follow_keys() {
    let mut h = GameEventHandler::new(640, 480, 0);
    h.key_down_event(Key::W, false);
    h.key_down_event(Key::D, false);
    assert_eq!(h.game_state.player.move_dir, [true, false, true, false]);
    h.key_up_event(Key::W);
    assert_eq!(h.game_state.player.move_dir, [false, false, true, false]);
    h.key_down_event(Key::S, false);
    h.key_down_event(Key::A, false);
    h.key_up_event(Key::D);
    assert_eq!(h.game_state.player.move_dir, [false, true, false, true]);
    h.key_up_event(Key::Other);
    assert_eq!(h.game_state.player.move_dir, [false, true, false, true]);
}

#[test]
fn diagonal_and_straight_steps() {
    let mut p = Player::new(0, 0);
    p.move_dir(0);
    p.move_dir(2);
    p.update();
    assert_eq!(p.unit.body.velocity, Velocity { x: 5656, y: 5656 });
    assert_eq!(p.unit.body.pos, Vec2 { x: 5656, y: 5656 });
    p.move_dir_cancel(0);
    p.update();
    assert_eq!(p.unit.body.velocity, Velocity { x: 8000, y: 0 });
    p.move_dir(3);
    p.update();
    assert_eq!(p.unit.body.velocity, Velocity { x: 0, y: 0 });
    p.move_dir(9);
    p.move_dir_cancel(9);
    assert_eq!(p.move_dir, [false, false, true, true]);
}

#[test]
fn pause_freezes_the_world() {
    let mut h = GameEventHandler::new(640, 480, 0);
    h.key_up_event(Key::Space);
    h.game_state.enemies.push(Enemy::new_drone(300_000, 600_000));
    h.key_up_event(Key::Escape);
    assert!(h.is_game_paused());
    h.update_with_draws(1_000_000, &vec![500]);
    assert_eq!(h.game_state.enemies[0].unit.body.pos, Vec2 { x: 300_000, y: 600_000 });
    assert_eq!(h.last_update, 1_000_000);
    h.key_up_event(Key::Escape);
    h.update_with_draws(1_016_000, &vec![500]);
    assert_eq!(h.game_state.enemies[0].unit.body.pos.x, 295_000);
}

#[test]
fn no_step_before_its_time() {
    let mut h = GameEventHandler::new(640, 480, 0);
    h.key_up_event(Key::Space);
    h.game_state.enemies.push(Enemy::new_drone(300_000, 600_000));
    h.update_with_draws(15_999, &vec![500]);
    assert_eq!(h.game_state.enemies[0].unit.body.pos.x, 300_000);
    assert_eq!(h.last_update, 0);
    h.update_with_draws(16_000, &vec![500]);
    assert_eq!(h.game_state.enemies[0].unit.body.pos.x, 295_000);
}

#[test]
fn dead_ship_freezes_enemies_but_not_explosions() {
    let mut gs = started_state();
    gs.player.set_dead(0);
    gs.enemies.push(Enemy::new_drone(300_000, 600_000));
    gs.particals.push(Partical::new_drone_death(100_000, 600_000));
    EntityManager::update(&mut gs, 5);
    assert_eq!(gs.enemies[0].unit.body.pos.x, 300_000);
    assert_eq!(gs.particals[0].unit.animation.frame, 1);
    EntityManager::respawn_player(&mut gs);
    assert!(EntityManager::is_player_alive(&gs));
    assert_eq!(gs.player.unit.body.pos, Vec2 { x: 213_333, y: 240_000 });
}

#[test]
fn strays_leave_the_world() {
    let mut gs = started_state();
    gs.projectiles.push(Projectile::new(735_000, 700_000, true));
    gs.enemies.push(Enemy::new_drone(-736_000, 700_000));
    gs.enemies.push(Enemy::new_drone(300_000, 990_000));
    EntityManager::enemy_fire(&mut gs, 300_000, 100_000);
    EntityManager::update(&mut gs, 1);
    assert!(gs.projectiles.len() == 1 && !gs.projectiles[0].player_owned);
    assert!(gs.enemies.is_empty());
}

#[test]
fn enemy_shot_destroys_the_ship() {
    let mut gs = started_state();
    let p = gs.player.unit.body.pos;
    EntityManager::enemy_fire(&mut gs, p.x + 15_000, p.y);
    EntityManager::update(&mut gs, 42);
    assert!(gs.player.unit.is_dead);
    assert_eq!(gs.player.last_death, 42);
    assert!(gs.projectiles.is_empty());
    assert_eq!(gs.particals.len(), 1);
}

#[test]
fn play_space_boxes() {
    let ps = PlaySpace::new(640, 480);
    assert_eq!(ps.player_area, Rect { x: 0, y: 480_000, w: 640_000, h: 480_000 });
    assert_eq!(ps.entity_area, Rect { x: 0, y: 480_000, w: 740_000, h: 480_000 });
    assert_eq!(ps.entity_area_aabb, Aabb { min_x: -740_000, min_y: 0, max_x: 740_000, max_y: 960_000 });
    assert_eq!(ps.life_loss_area_aabb, Aabb { min_x: -1_280_000, min_y: 0, max_x: 0, max_y: 960_000 });
}

#[test]
fn camera_flips_y() {
    let cam = Camera::new(640, 480);
    assert_eq!(cam.get_view_position(&Vec2 { x: 100_000, y: 100_000 }), Vec2 { x: 100_000, y: 380_000 });
    let mut b = Body::new(0, 0, 10, 10, 100, 100, 0, true);
    b.velocity = Velocity { x: -15_000, y: 3_000 };
    assert_eq!(b.get_view_position(500, &cam), Vec2 { x: -7_500, y: 478_500 });
    assert_eq!(b.get_scaled_size(), (5, 5));
}

#[test]
fn asset_keys_and_fallback() {
    assert_eq!(Asset::from_key(&"drone1".to_string()), Asset::Drone1);
    assert_eq!(Asset::from_key(&"player".to_string()), Asset::Player);
    assert_eq!(Asset::from_key(&"explosion1".to_string()), Asset::Explosion1);
    assert_eq!(Asset::from_key(&"nothing".to_string()), Asset::Projectile1);
    for a in [Asset::Player, Asset::Drone1, Asset::Projectile1, Asset::Explosion1] {
        assert_eq!(Asset::from_key(&a.key().to_string()), a);
    }
}

#[test]
fn interpolation_and_frames() {
    let mut h = GameEventHandler::new(640, 480, 0);
    assert_eq!(h.get_interpolation_value(8_000), 0);
    h.key_up_event(Key::Space);
    assert_eq!(h.get_interpolation_value(8_000), 500);
    assert_eq!(h.get_interpolation_value(40_000), 1000);
    match h.draw(3_000) {
        FrameAction::Sleep { micros } => assert_eq!(micros, 1_000),
        FrameAction::Render { .. } => panic!("drew too early"),
    }
    match h.draw(8_000) {
        FrameAction::Render { sprites, overlay } => {
            assert_eq!(sprites.len(), 1);
            assert_eq!(sprites[0].asset, Asset::Player);
            assert_eq!(sprites[0].dest, Vec2 { x: 213_333, y: 240_000 });
            assert_eq!(overlay, vec![OverlayText::Lives(10), OverlayText::Level(1), OverlayText::Score(0)]);
        }
        FrameAction::Sleep { .. } => panic!("did not draw"),
    }
    assert_eq!(h.last_draw, 8_000);
}

#[test]
fn overlay_before_start() {
    let h = GameEventHandler::new(640, 480, 0);
    assert_eq!(h.draw_overlay(), vec![OverlayText::Title, OverlayText::StartPrompt]);
}

#[test]
fn draw_order_skips_the_dead() {
    let mut gs = started_state();
    gs.projectiles.push(Projectile::new(1, 2, true));
    gs.enemies.push(Enemy::new_drone(3, 4));
    gs.enemies.push(Enemy::new_drone(5, 6));
    gs.enemies[0].unit.is_dead = true;
    gs.particals.push(Partical::new_drone_death(7, 8));
    let cam = Camera::new(640, 480);
    let d = EntityManager::draw(&gs, 0, &cam);
    let assets: Vec<Asset> = d.iter().map(|s| s.asset).collect();
    assert_eq!(assets, vec![Asset::Projectile1, Asset::Drone1, Asset::Player, Asset::Explosion1]);
    assert_eq!(d[1].dest, Vec2 { x: 5, y: 480_000 - 6 });
    assert_eq!((d[3].cols, d[3].rows, d[3].rotation, d[3].scale.x), (8, 8, 1, 150));
}

#[test]
fn factory_makes_drones() {
    let e = Enemy::create_enemy_by_key(EnemyType::NormalDrone, 10, 20).unwrap();
    assert_eq!(e.unit.asset_key, Asset::Drone1);
    assert_eq!(e.unit.body.velocity, Velocity { x: -5000, y: 0 });
    assert_eq!(e.unit.body.get_scaled_size(), (33_000, 32_000));
    let mut gs = started_state();
    EntityManager::add_enemy(&mut gs, e);
    assert_eq!(EntityManager::get_enemy_count(&gs), 1);
}

#[test]
fn spawn_point_from_draw() {
    let wm = WaveManager::new(PlaySpace::new(640, 480), 0);
    assert_eq!(wm.get_spawn_point(500), (635_000, 240_000));
    assert_eq!(wm.get_spawn_point(0), (635_000, 50_000));
    assert_eq!(wm.get_spawn_point(999), (635_000, 429_620));
    assert_eq!(wm.get_wave_level(), 1);
}

#[test]
fn lives_stop_at_zero() {
    let mut h = GameEventHandler::new(640, 480, 0);
    h.key_up_event(Key::Space);
    h.game_state.lives = 1;
    h.game_state.enemies.push(Enemy::new_drone(-300_000, 240_000));
    h.game_state.enemies.push(Enemy::new_drone(-500_000, 240_000));
    h.update_game(5, &vec![500]);
    assert_eq!(h.game_state.lives, 0);
    assert!(h.game_state.enemies.is_empty());
    assert!(h.is_game_over());
}

#[test]
fn dead_ship_leaves_dead_enemies_in_place() {
    let mut gs = started_state();
    gs.player.set_dead(0);
    gs.enemies.push(Enemy::new_drone(300_000, 600_000));
    gs.enemies[0].unit.is_dead = true;
    gs.projectiles.push(Projectile::new(900_000, 600_000, true));
    EntityManager::update(&mut gs, 5);
    assert_eq!(gs.enemies.len(), 1);
    assert_eq!(gs.projectiles.len(), 1);
    assert_eq!(gs.projectiles[0].unit.body.pos.x, 900_000);
}

#[test]
fn short_window_mirrors_spawn_band() {
    let wm = WaveManager::new(PlaySpace::new(640, 50), 0);
    assert_eq!(wm.spawn_range, -50_000);
    assert_eq!(wm.get_spawn_point(0), (635_000, 50_000));
    assert_eq!(wm.get_spawn_point(500), (635_000, 25_000));
    assert_eq!(wm.get_spawn_point(999), (635_000, 50));
}

#[test]
fn collision_pass_credits_only_live_kills() {
    let mut gs = started_state();
    gs.projectiles.push(Projectile::new(400_000, 800_000, true));
    gs.projectiles.push(Projectile::new(400_000, 800_000, true));
    gs.enemies.push(Enemy::new_drone(410_000, 800_000));
    gs.enemies.push(Enemy::new_drone(420_000, 800_000));
    gs.enemies.push(Enemy::new_drone(430_000, 800_000));
    gs.enemies[0].unit.is_dead = true;
    EntityManager::collision_resolution(&mut gs, 1);
    assert_eq!(gs.score, 300);
    assert!(gs.enemies.iter().all(|e| e.unit.is_dead));
    assert!(gs.projectiles.iter().all(|p| p.unit.is_dead));
    EntityManager::update_clean_up(&mut gs);
    assert!(gs.enemies.is_empty() && gs.projectiles.is_empty());
    assert_eq!(gs.particals.len(), 2);
}
