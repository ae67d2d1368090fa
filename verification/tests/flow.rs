use caticorn::geom::ImageSize;
use caticorn::geom::Vec2;
use caticorn::geom::WindowSize;
use caticorn::phases::advance_frame;
use caticorn::phases::end_sequence;
use caticorn::phases::gameplay_setup;
use caticorn::phases::gameplay_teardown;
use caticorn::phases::init_wait_for_input;
use caticorn::phases::poop_sequence;
use caticorn::phases::poop_setup;
use caticorn::phases::title_player_pulse;
use caticorn::phases::title_setup;
use caticorn::phases::title_wait_for_keypress;
use caticorn::phases::FrameInput;
use caticorn::world::Candy;
use caticorn::world::GameState;
use caticorn::world::GameWorld;
use caticorn::world::ShrinkData;

fn world_800x600() -> GameWorld {
    GameWorld::new(
        WindowSize { w_px: 800, h_px: 600 },
        ImageSize { w_px: 64, h_px: 64 },
        ImageSize { w_px: 64, h_px: 64 },
    )
}

fn idle_input() -> FrameInput {
    FrameInput {
        mouse_clicked: false,
        space_pressed: false,
        escape_pressed: false,
        enter_pressed: false,
        left: false,
        right: false,
        up: false,
        down: false,
        grow: false,
        manual_spawn: false,
        pulse_wave: 0,
    }
}

fn overlapping_candy() -> Candy {
    Candy {
        pos: Vec2 { x: 0, y: 0 },
        direction: Vec2 { x: 1000, y: 0 },
        timestamp_changed_direction: 0,
        scale: 1000,
        alive: true,
    }
}

#[test]
fn init_waits_for_a_click() {
    assert_eq!(init_wait_for_input(false), None);
    assert_eq!(init_wait_for_input(true), Some(GameState::Title));
}

#[test]
fn title_waits_for_the_start_key() {
    assert_eq!(title_wait_for_keypress(false), None);
    assert_eq!(title_wait_for_keypress(true), Some(GameState::Playing));
}

#[test]
fn title_setup_resets_the_player_and_arena() {
    let mut w = world_800x600();
    w.now_ms = 5_000;
    w.player.pos = Vec2 { x: 100_000, y: -50_000 };
    w.player.scale = 4_000;
    w.candies.push(overlapping_candy());
    title_setup(&mut w);
    assert_eq!(w.candies.len(), 0);
    assert_eq!(w.player.pos, Vec2 { x: 0, y: 0 });
    assert_eq!(w.player.scale, 1000);
    assert_eq!(w.pulse.start_time, 5_000);
}

#[test]
fn title_pulse_scales_with_the_wave() {
    let mut w = world_800x600();
    title_player_pulse(&mut w, 0);
    assert_eq!(w.player.scale, 1000);
    title_player_pulse(&mut w, 1000);
    assert_eq!(w.player.scale, 2500);
    title_player_pulse(&mut w, 500);
    assert_eq!(w.player.scale, 1750);
}

#[test]
fn gameplay_setup_spawns_initial_candies() {
    let mut w = world_800x600();
    w.player.scale = 3_000;
    gameplay_setup(&mut w);
    assert_eq!(w.player.scale, 1000);
    assert_eq!(w.count_live_candies(), 3);
}

#[test]
fn gameplay_teardown_clears_the_arena() {
    let mut w = world_800x600();
    gameplay_setup(&mut w);
    gameplay_teardown(&mut w);
    assert_eq!(w.candies.len(), 0);
}

#[test]
fn end_sequence_moves_player_toward_center() {
    let mut w = world_800x600();
    w.player.pos = Vec2 { x: 500_000, y: 0 };
    let next = end_sequence(&mut w, 100);
    assert_eq!(next, None);
    // 400 units/s toward the center for 0.1 s.
    assert_eq!(w.player.pos, Vec2 { x: 460_000, y: 0 });
}

#[test]
fn end_sequence_damps_the_delta_near_center() {
    let mut w = world_800x600();
    w.player.pos = Vec2 { x: 2_000, y: 0 };
    let next = end_sequence(&mut w, 10);
    assert_eq!(next, None);
    // The raw 4000-milli step exceeds the remaining 2000, so it is damped
    // by nine tenths until it fits: 4000, 3600, ..., 1911.
    assert_eq!(w.player.pos, Vec2 { x: 89, y: 0 });
}

#[test]
fn end_sequence_arrives_within_one_unit() {
    let mut w = world_800x600();
    w.player.pos = Vec2 { x: 500, y: 0 };
    let next = end_sequence(&mut w, 100);
    assert_eq!(next, Some(GameState::Poop));
    assert_eq!(w.player.pos, Vec2 { x: 500, y: 0 });
}

#[test]
fn poop_setup_records_the_entry_scale() {
    let mut w = world_800x600();
    w.player.scale = 4_000;
    poop_setup(&mut w);
    assert_eq!(w.shrink, ShrinkData { initial_scale_x: 4_000, total_time: 0 });
}

#[test]
fn poop_sequence_shrinks_at_the_entry_rate() {
    let mut w = world_800x600();
    w.player.scale = 5_000;
    w.shrink = ShrinkData { initial_scale_x: 5_000, total_time: 1_500 };
    let next = poop_sequence(&mut w, 600);
    assert_eq!(next, None);
    // Half the 4000 excess per second, for 0.6 s.
    assert_eq!(w.player.scale, 3_800);
    assert_eq!(w.shrink.total_time, 2_100);
}

#[test]
fn poop_sequence_settles_at_one() {
    let mut w = world_800x600();
    w.player.scale = 1_100;
    w.shrink = ShrinkData { initial_scale_x: 6_000, total_time: 0 };
    poop_sequence(&mut w, 1_000);
    assert_eq!(w.player.scale, 1_000);
}

#[test]
fn poop_past_duration_returns_to_title() {
    // Poop phase with total_time accumulated past 2 seconds transitions
    // to Title.
    let mut w = world_800x600();
    w.phase = GameState::Poop;
    w.player.scale = 3_000;
    w.shrink = ShrinkData { initial_scale_x: 3_000, total_time: 2_001 };
    let ev = advance_frame(&mut w, idle_input(), 16);
    assert_eq!(ev.entered, Some(GameState::Title));
    assert_eq!(w.phase, GameState::Title);
    assert_eq!(w.player.scale, 1000);
}

#[test]
fn zero_candies_end_the_round_next_frame() {
    // The candy count transitions from 1 to 0 in one frame (the player
    // eats the last candy); the transition to End fires on the next.
    let mut w = world_800x600();
    w.phase = GameState::Playing;
    w.candies.push(overlapping_candy());
    let ev1 = advance_frame(&mut w, idle_input(), 10);
    assert_eq!(ev1.candies_eaten, 1);
    assert_eq!(ev1.entered, None);
    assert_eq!(w.phase, GameState::Playing);
    assert_eq!(w.count_live_candies(), 0);
    let ev2 = advance_frame(&mut w, idle_input(), 10);
    assert_eq!(ev2.entered, Some(GameState::End));
    assert_eq!(w.phase, GameState::End);
}

#[test]
fn escape_cancels_to_title() {
    let mut w = world_800x600();
    w.phase = GameState::Playing;
    w.candies.push(overlapping_candy());
    let input = FrameInput { escape_pressed: true, ..idle_input() };
    let ev = advance_frame(&mut w, input, 10);
    assert_eq!(ev.entered, Some(GameState::Title));
    assert_eq!(w.phase, GameState::Title);
    assert_eq!(w.candies.len(), 0);
}

#[test]
fn skip_key_wins_over_escape() {
    let mut w = world_800x600();
    w.phase = GameState::Playing;
    w.candies.push(overlapping_candy());
    let input = FrameInput { escape_pressed: true, enter_pressed: true, ..idle_input() };
    let ev = advance_frame(&mut w, input, 10);
    assert_eq!(ev.entered, Some(GameState::End));
}

#[test]
fn full_cycle_through_all_phases() {
    let mut w = world_800x600();
    assert_eq!(w.phase, GameState::Init);

    let ev = advance_frame(&mut w, FrameInput { mouse_clicked: true, ..idle_input() }, 16);
    assert_eq!(ev.entered, Some(GameState::Title));

    let ev = advance_frame(&mut w, FrameInput { space_pressed: true, ..idle_input() }, 16);
    assert_eq!(ev.entered, Some(GameState::Playing));
    assert_eq!(w.count_live_candies(), 3);

    let ev = advance_frame(&mut w, FrameInput { enter_pressed: true, ..idle_input() }, 16);
    assert_eq!(ev.entered, Some(GameState::End));
    assert_eq!(w.count_live_candies(), 0);

    // The player is already at the center, so the shrink sequence starts.
    let ev = advance_frame(&mut w, idle_input(), 16);
    assert_eq!(ev.entered, Some(GameState::Poop));
    assert_eq!(w.shrink.total_time, 0);

    // Sit out the two-second shrink, then one more frame to notice it.
    let ev = advance_frame(&mut w, idle_input(), 2_001);
    assert_eq!(ev.entered, None);
    let ev = advance_frame(&mut w, idle_input(), 16);
    assert_eq!(ev.entered, Some(GameState::Title));
    assert_eq!(w.phase, GameState::Title);
}

#[test]
fn frame_runs_the_gameplay_passes() {
    let mut w = world_800x600();
    w.phase = GameState::Playing;
    w.candies.push(Candy {
        pos: Vec2 { x: -300_000, y: 0 },
        direction: Vec2 { x: 1000, y: 0 },
        timestamp_changed_direction: 0,
        scale: 1000,
        alive: true,
    });
    let input = FrameInput { right: true, ..idle_input() };
    let ev = advance_frame(&mut w, input, 100);
    // The player moved by 600 units/s for 0.1 s; the candy by 250 units/s;
    // nothing bounced, collided, or spawned.
    assert_eq!(w.player.pos, Vec2 { x: 60_000, y: 0 });
    assert_eq!(w.candies[0].pos, Vec2 { x: -275_000, y: 0 });
    assert_eq!(ev.bounce_sounds, 0);
    assert_eq!(ev.candies_eaten, 0);
    assert_eq!(ev.entered, None);
    assert_eq!(w.count_live_candies(), 1);
}

#[test]
fn frames_advance_the_clock() {
    let mut w = world_800x600();
    advance_frame(&mut w, idle_input(), 16);
    advance_frame(&mut w, idle_input(), 24);
    assert_eq!(w.now_ms, 40);
}

#[test]
fn new_world_starts_clean() {
    let w = world_800x600();
    assert_eq!(w.phase, GameState::Init);
    assert_eq!(w.player.pos, Vec2 { x: 0, y: 0 });
    assert_eq!(w.player.scale, 1000);
    assert_eq!(w.candies.len(), 0);
    assert_eq!(w.now_ms, 0);
    assert_eq!(w.spawn_timer.remaining_ms, 660);
    assert_eq!(w.spawn_timer.period_ms, 660);
}
