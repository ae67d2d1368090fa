use caticorn::geom::dist_milli;
use caticorn::geom::normalize_or_axis;
use caticorn::geom::calculate_confinement_rect;
use caticorn::geom::ImageSize;
use caticorn::geom::Vec2;
use caticorn::geom::WindowSize;
use caticorn::math::clamp_i64;
use caticorn::math::isqrt_u64;
use caticorn::math::mul_div_tz;
use caticorn::rng::random_below;
use caticorn::rng::random_in_range;
use caticorn::world::CandySpawnTimer;
use caticorn::world::CandyChangeDirectionSound;

#[test]
fn isqrt_small_values() {
    assert_eq!(isqrt_u64(0), 0);
    assert_eq!(isqrt_u64(1), 1);
    assert_eq!(isqrt_u64(2), 1);
    assert_eq!(isqrt_u64(24), 4);
    assert_eq!(isqrt_u64(25), 5);
    assert_eq!(isqrt_u64(26), 5);
    assert_eq!(isqrt_u64(1_000_000), 1000);
}

#[test]
fn isqrt_large_values() {
    assert_eq!(isqrt_u64(u64::MAX), 0xffff_ffff);
    assert_eq!(isqrt_u64(4_000_000_000_000_000_000), 2_000_000_000);
    assert_eq!(isqrt_u64(4_000_000_000_000_000_000 - 1), 1_999_999_999);
}

#[test]
fn clamp_pins_to_interval() {
    assert_eq!(clamp_i64(5, 0, 10), 5);
    assert_eq!(clamp_i64(-5, 0, 10), 0);
    assert_eq!(clamp_i64(15, 0, 10), 10);
    assert_eq!(clamp_i64(7, 7, 7), 7);
}

#[test]
fn mul_div_truncates_toward_zero() {
    assert_eq!(mul_div_tz(7, 3, 10), 2);
    assert_eq!(mul_div_tz(-7, 3, 10), -2);
    assert_eq!(mul_div_tz(7, -3, 10), -2);
    assert_eq!(mul_div_tz(9, -4000, 10), -3600);
    assert_eq!(mul_div_tz(0, 12345, 7), 0);
}

#[test]
fn normalize_pythagorean_vector() {
    let d = normalize_or_axis(3, 4);
    assert_eq!(d, Vec2 { x: 600, y: 800 });
    assert_eq!(d.x * d.x + d.y * d.y, 1_000_000);
}

#[test]
fn normalize_keeps_signs() {
    assert_eq!(normalize_or_axis(-3, 4), Vec2 { x: -600, y: 800 });
    assert_eq!(normalize_or_axis(3_000, -4_000), Vec2 { x: 600, y: -800 });
}

#[test]
fn normalize_zero_vector_falls_back_to_axis() {
    assert_eq!(normalize_or_axis(0, 0), Vec2 { x: 1000, y: 0 });
}

#[test]
fn distance_is_floored_euclidean() {
    assert_eq!(dist_milli(Vec2 { x: 3, y: 4 }, Vec2 { x: 0, y: 0 }), 5);
    assert_eq!(dist_milli(Vec2 { x: 0, y: 0 }, Vec2 { x: 1, y: 1 }), 1);
    assert_eq!(dist_milli(Vec2 { x: -3000, y: 0 }, Vec2 { x: 0, y: -4000 }), 5000);
}

#[test]
fn confinement_rect_insets_by_half_sprite() {
    let win = WindowSize { w_px: 800, h_px: 600 };
    let img = ImageSize { w_px: 64, h_px: 64 };
    let r = calculate_confinement_rect(win, img, 1000);
    assert_eq!(r.min_x, -368_000);
    assert_eq!(r.max_x, 368_000);
    assert_eq!(r.min_y, -268_000);
    assert_eq!(r.max_y, 268_000);
    let r6 = calculate_confinement_rect(win, img, 6000);
    assert_eq!(r6.max_x, 400_000 - 192_000);
    assert_eq!(r6.min_y, -300_000 + 192_000);
}

#[test]
fn spawn_timer_counts_down() {
    let mut t = CandySpawnTimer { remaining_ms: 660, period_ms: 660 };
    assert!(!t.tick(100));
    assert_eq!(t.remaining_ms, 560);
    assert!(t.tick(560));
    assert_eq!(t.remaining_ms, 660);
}

#[test]
fn spawn_timer_reloads_past_zero() {
    let mut t = CandySpawnTimer { remaining_ms: 660, period_ms: 660 };
    assert!(t.tick(1400));
    // 740 ms past the tick: 80 into the next period, 580 left of it.
    assert_eq!(t.remaining_ms, 580);
}

#[test]
fn random_helpers_stay_in_bounds() {
    for _ in 0..100 {
        assert!(random_below(5) < 5);
        let v = random_in_range(-10, 10);
        assert!((-10..=10).contains(&v));
    }
    assert_eq!(random_in_range(7, 7), 7);
}

#[test]
fn select_random_picks_an_existing_sound() {
    let s = CandyChangeDirectionSound { sound_count: 2 };
    for _ in 0..50 {
        assert!(s.select_random() < 2);
    }
}
