use caticorn::gameplay::gameplay_candy_movement;
use caticorn::gameplay::gameplay_confine_entity_movement;
use caticorn::gameplay::gameplay_player_candy_collision;
use caticorn::gameplay::gameplay_player_movement;
use caticorn::gameplay::gameplay_spawn_candy_timer;
use caticorn::gameplay::gameplay_update_candy_direction;
use caticorn::gameplay::spawn_candy;
use caticorn::gameplay::PlayerInput;
use caticorn::geom::ImageSize;
use caticorn::geom::Vec2;
use caticorn::geom::WindowSize;
use caticorn::world::Candy;
use caticorn::world::GameWorld;
use caticorn::world::MAX_CANDY;

fn world_800x600() -> GameWorld {
    GameWorld::new(
        WindowSize { w_px: 800, h_px: 600 },
        ImageSize { w_px: 64, h_px: 64 },
        ImageSize { w_px: 64, h_px: 64 },
    )
}

fn candy_at(x: i64, y: i64, dx: i64, dy: i64) -> Candy {
    Candy {
        pos: Vec2 { x, y },
        direction: Vec2 { x: dx, y: dy },
        timestamp_changed_direction: 0,
        scale: 1000,
        alive: true,
    }
}

fn no_keys() -> PlayerInput {
    PlayerInput { left: false, right: false, up: false, down: false, grow: false }
}

#[test]
fn candy_bounces_off_right_wall() {
    // Window 800x600, player at the origin at scale 1.0, one candy at
    // (790, 0) units moving along (1, 0): after one frame its position
    // exceeds max_x, so its x direction flips to -1.
    let mut w = world_800x600();
    w.now_ms = 1_000;
    w.candies.push(candy_at(790_000, 0, 1000, 0));
    gameplay_candy_movement(&mut w, 16);
    assert_eq!(w.candies[0].pos, Vec2 { x: 794_000, y: 0 });
    let sounds = gameplay_update_candy_direction(&mut w);
    assert_eq!(w.candies[0].direction, Vec2 { x: -1000, y: 0 });
    assert_eq!(sounds, 1);
}

#[test]
fn bounce_keeps_direction_unit_length() {
    let mut w = world_800x600();
    // A unit direction with both components: 600^2 + 800^2 == 1000^2.
    w.candies.push(candy_at(790_000, 0, 600, 800));
    gameplay_update_candy_direction(&mut w);
    let d = w.candies[0].direction;
    assert_eq!(d, Vec2 { x: -600, y: 800 });
    assert_eq!(d.x * d.x + d.y * d.y, 1_000_000);
}

#[test]
fn bounce_sound_is_debounced() {
    let mut w = world_800x600();
    w.now_ms = 1_000;
    // Changed direction 50 ms ago: flips silently but restamps.
    let mut quiet = candy_at(790_000, 0, 1000, 0);
    quiet.timestamp_changed_direction = 950;
    // Changed direction 200 ms ago: flips audibly.
    let mut loud = candy_at(-790_000, 0, -1000, 0);
    loud.timestamp_changed_direction = 800;
    w.candies.push(quiet);
    w.candies.push(loud);
    let sounds = gameplay_update_candy_direction(&mut w);
    assert_eq!(sounds, 1);
    assert_eq!(w.candies[0].direction.x, -1000);
    assert_eq!(w.candies[0].timestamp_changed_direction, 1_000);
    assert_eq!(w.candies[1].direction.x, 1000);
    assert_eq!(w.candies[1].timestamp_changed_direction, 1_000);
}

#[test]
fn attraction_pulls_candy_toward_player() {
    // Candy 150 units from the player (radius threshold 200): after base
    // movement to 125 units, the pull is (400 - 125) units/s toward the
    // player, on top of the base movement.
    let mut w = world_800x600();
    w.candies.push(candy_at(150_000, 0, -1000, 0));
    gameplay_candy_movement(&mut w, 100);
    // Base: 150000 - 25000 = 125000; pull: -1000 * 275000 * 100 / 1e6.
    assert_eq!(w.candies[0].pos, Vec2 { x: 97_500, y: 0 });
}

#[test]
fn attraction_distance_is_floored() {
    // Very close candies use the floored distance of 25 units, so the
    // force caps at 375 units/s.
    let mut w = world_800x600();
    w.candies.push(candy_at(10_000, 0, 0, 1000));
    gameplay_candy_movement(&mut w, 10);
    // Base movement is on y: pos (10000, 2500); the true distance 10307
    // floors to 25000, so the force is the full 375 units/s, along the
    // unit vector (-970, -242) toward the player.
    let c = w.candies[0].pos;
    assert_eq!(c.x, 10_000 - 3_637);
    assert_eq!(c.y, 2_500 - 907);
}

#[test]
fn no_attraction_outside_radius() {
    let mut w = world_800x600();
    w.candies.push(candy_at(300_000, 0, 1000, 0));
    gameplay_candy_movement(&mut w, 100);
    // Base movement only: 300000 + 25000.
    assert_eq!(w.candies[0].pos, Vec2 { x: 325_000, y: 0 });
}

#[test]
fn collision_despawns_and_grows_player() {
    // Player and candy overlap deeply: adjusted distance is
    // 0 - 32 - 32 = -64 units, past the -20 threshold, so the candy
    // despawns and the player grows by the 0.03 increment.
    let mut w = world_800x600();
    w.candies.push(candy_at(0, 0, 1000, 0));
    let eaten = gameplay_player_candy_collision(&mut w);
    assert_eq!(eaten, 1);
    assert!(!w.candies[0].alive);
    assert_eq!(w.player.scale, 1030);
}

#[test]
fn collision_is_at_most_once_per_candy() {
    // A despawned candy triggers no second collision response, in the
    // same or a later pass.
    let mut w = world_800x600();
    w.candies.push(candy_at(0, 0, 1000, 0));
    assert_eq!(gameplay_player_candy_collision(&mut w), 1);
    assert_eq!(w.player.scale, 1030);
    assert_eq!(gameplay_player_candy_collision(&mut w), 0);
    assert_eq!(w.player.scale, 1030);
    assert!(!w.candies[0].alive);
}

#[test]
fn collision_barely_touching_does_not_despawn() {
    // 50 units apart: adjusted distance 50 - 64 = -14, shy of -20.
    let mut w = world_800x600();
    w.candies.push(candy_at(50_000, 0, 1000, 0));
    assert_eq!(gameplay_player_candy_collision(&mut w), 0);
    assert!(w.candies[0].alive);
    assert_eq!(w.player.scale, 1000);
}

#[test]
fn later_candies_see_the_grown_player() {
    // Eating the first candy widens the player's reach enough to eat the
    // second, which it would not have reached at its original scale.
    let mut w = world_800x600();
    w.player.scale = 2000;
    w.candies.push(candy_at(0, 0, 1000, 0));
    // Adjusted distance at scale 2000: 76450 - 64000 - 32000 = -19550;
    // after one candy the scale is 2030 and it becomes -20510.
    w.candies.push(candy_at(76_450, 0, 1000, 0));
    let eaten = gameplay_player_candy_collision(&mut w);
    assert_eq!(eaten, 2);
    assert_eq!(w.player.scale, 2060);
}

#[test]
fn confinement_clamps_position_and_scale() {
    let mut w = world_800x600();
    w.player.pos = Vec2 { x: 10_000_000, y: -10_000_000 };
    w.player.scale = 7000;
    gameplay_confine_entity_movement(&mut w);
    // Scale clamps to 6.0 first; the rect insets by 64 * 6 / 2 = 192.
    assert_eq!(w.player.scale, 6000);
    assert_eq!(w.player.pos, Vec2 { x: 208_000, y: -108_000 });
}

#[test]
fn confinement_is_idempotent() {
    let mut w = world_800x600();
    w.player.pos = Vec2 { x: 999_999, y: -999_999 };
    w.player.scale = 123;
    w.candies.push(candy_at(500_000, -500_000, 600, 800));
    gameplay_confine_entity_movement(&mut w);
    let player_once = w.player;
    let candies_once = w.candies.clone();
    gameplay_confine_entity_movement(&mut w);
    assert_eq!(w.player, player_once);
    assert_eq!(w.candies, candies_once);
}

#[test]
fn player_moves_by_held_keys() {
    let mut w = world_800x600();
    let input = PlayerInput { left: false, right: true, up: true, down: false, grow: false };
    gameplay_player_movement(&mut w, input, 100);
    // 600 units/s for 0.1 s on each held axis; diagonal movement is
    // faster by design.
    assert_eq!(w.player.pos, Vec2 { x: 60_000, y: 60_000 });
}

#[test]
fn opposite_keys_cancel() {
    let mut w = world_800x600();
    let input = PlayerInput { left: true, right: true, up: false, down: true, grow: false };
    gameplay_player_movement(&mut w, input, 100);
    assert_eq!(w.player.pos, Vec2 { x: 0, y: -60_000 });
}

#[test]
fn grow_key_inflates_scale() {
    let mut w = world_800x600();
    gameplay_player_movement(
        &mut w,
        PlayerInput { left: false, right: false, up: false, down: false, grow: true },
        16,
    );
    assert_eq!(w.player.scale, 1100);
}

#[test]
fn spawner_fills_arena_up_to_ceiling() {
    let mut w = world_800x600();
    for _ in 0..MAX_CANDY {
        spawn_candy(&mut w);
    }
    assert_eq!(w.count_live_candies(), MAX_CANDY);
    assert_eq!(w.candies.len(), MAX_CANDY);
}

#[test]
fn spawner_is_noop_at_ceiling() {
    let mut w = world_800x600();
    for _ in 0..MAX_CANDY {
        spawn_candy(&mut w);
    }
    let before = w.spawn_timer;
    // Timer due and debug key held: still nothing spawns at the ceiling.
    let spawned = gameplay_spawn_candy_timer(&mut w, 660, true);
    assert_eq!(spawned, 0);
    assert_eq!(w.count_live_candies(), MAX_CANDY);
    assert_eq!(w.spawn_timer, before);
}

#[test]
fn spawner_never_exceeds_ceiling() {
    let mut w = world_800x600();
    for _ in 0..MAX_CANDY - 1 {
        spawn_candy(&mut w);
    }
    // One slot left, timer due and debug key held: only one spawns.
    let spawned = gameplay_spawn_candy_timer(&mut w, 660, true);
    assert_eq!(spawned, 1);
    assert_eq!(w.count_live_candies(), MAX_CANDY);
}

#[test]
fn spawner_adds_timer_and_manual_candy() {
    let mut w = world_800x600();
    let spawned = gameplay_spawn_candy_timer(&mut w, 660, true);
    assert_eq!(spawned, 2);
    assert_eq!(w.count_live_candies(), 2);
}

#[test]
fn spawner_idle_when_timer_not_due() {
    let mut w = world_800x600();
    let spawned = gameplay_spawn_candy_timer(&mut w, 100, false);
    assert_eq!(spawned, 0);
    assert_eq!(w.count_live_candies(), 0);
    assert_eq!(w.spawn_timer.remaining_ms, 560);
}

#[test]
fn spawned_candy_is_unit_and_in_window() {
    let mut w = world_800x600();
    let i = spawn_candy(&mut w);
    let c = w.candies[i];
    assert!(c.alive);
    assert_eq!(c.scale, 1000);
    assert_eq!(c.timestamp_changed_direction, 0);
    let n = c.direction.x * c.direction.x + c.direction.y * c.direction.y;
    assert!((990_000..=1_010_000).contains(&n));
    assert!(c.pos.x.abs() <= 400_000);
    assert!(c.pos.y.abs() <= 300_000);
}

#[test]
fn spawn_reuses_free_slots() {
    let mut w = world_800x600();
    w.candies.push(candy_at(0, 0, 1000, 0));
    assert_eq!(gameplay_player_candy_collision(&mut w), 1);
    // The arena has one free slot; the next spawn fills it in place.
    let i = spawn_candy(&mut w);
    assert_eq!(i, 0);
    assert_eq!(w.candies.len(), 1);
    assert!(w.candies[0].alive);
}

#[test]
fn despawned_candy_does_not_move_or_bounce() {
    let mut w = world_800x600();
    let mut dead = candy_at(790_000, 0, 1000, 0);
    dead.alive = false;
    w.candies.push(dead);
    gameplay_candy_movement(&mut w, 100);
    let sounds = gameplay_update_candy_direction(&mut w);
    assert_eq!(sounds, 0);
    assert_eq!(w.candies[0].pos, Vec2 { x: 790_000, y: 0 });
    assert_eq!(w.candies[0].direction, Vec2 { x: 1000, y: 0 });
}
