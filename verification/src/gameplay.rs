//! The per-frame systems that run while the game is in the `Playing`
//! phase: player and candy movement, wall bounces, the confinement clamp,
//! collision resolution, and the candy spawner.

use vstd::prelude::*;

use crate::geom::calculate_confinement_rect;
use crate::geom::dist_milli;
use crate::geom::dist_spec;
use crate::geom::half_extent;
use crate::geom::half_extent_spec;
use crate::geom::ImageSize;
use crate::geom::IMG_PX_MAX;
use crate::geom::is_unit_dir;
use crate::geom::lemma_flip_preserves_unit;
use crate::geom::lemma_rect_nonempty;
use crate::geom::lemma_unit_dir_bounds;
use crate::geom::norm_dir_x;
use crate::geom::norm_dir_y;
use crate::geom::normalize_or_axis;
use crate::geom::POS_LIMIT;
use crate::geom::POS_MID_LIMIT;
use crate::geom::POS_SLACK_LIMIT;
use crate::geom::Rect;
use crate::geom::rect_max_x_spec;
use crate::geom::rect_max_y_spec;
use crate::geom::rect_min_x_spec;
use crate::geom::rect_min_y_spec;
use crate::geom::SCALE_LIMIT;
use crate::geom::SCALE_ONE;
use crate::geom::Vec2;
use crate::geom::WINDOW_PX_MAX;
use crate::geom::WindowSize;
use crate::math::abs_i;
use crate::math::clamp_i64;
use crate::math::clamp_spec;
use crate::math::div_tz;
use crate::math::mul_div_tz;
use crate::rng::random_in_range;
use crate::world::alive_count;
use crate::world::ATTRACT_BASE;
use crate::world::ATTRACT_MIN_DIST;
use crate::world::ATTRACT_RADIUS;
use crate::world::BOUNCE_DEBOUNCE_MS;
use crate::world::Candy;
use crate::world::candy_core_wf;
use crate::world::CANDY_SPEED;
use crate::world::COLLISION_OVERLAP;
use crate::world::DT_MAX_MS;
use crate::world::GameState;
use crate::world::GameWorld;
use crate::world::GROWTH_STEP;
use crate::world::lemma_alive_count_full;
use crate::world::lemma_alive_count_pointwise;
use crate::world::lemma_alive_count_push;
use crate::world::lemma_alive_count_update;
use crate::world::MAX_CANDY;
use crate::world::PLAYER_SPEED;
use crate::world::SCALE_CLAMP_MAX;
use crate::world::SCALE_CLAMP_MIN;
use crate::world::timer_rem_after;

verus! {

/// The movement keys held this frame, and the debug grow key.
#[derive(Clone, Copy, PartialEq, Eq, Structural, Debug)]
pub struct PlayerInput {
    pub left: bool,
    pub right: bool,
    pub up: bool,
    pub down: bool,
    pub grow: bool,
}

/// The player's x direction: the sum of the unit axis vectors of the held
/// keys, not renormalized, so diagonal movement is faster by design.
pub open spec fn player_dir_x(input: PlayerInput) -> int {
    (if input.right {
        1int
    } else {
        0int
    }) - (if input.left {
        1int
    } else {
        0int
    })
}

pub open spec fn player_dir_y(input: PlayerInput) -> int {
    (if input.up {
        1int
    } else {
        0int
    }) - (if input.down {
        1int
    } else {
        0int
    })
}

/// The player's scale after the debug grow key: a tenth larger, saturating
/// at the headroom bound (far beyond the visual clamp).
pub open spec fn grown_scale(scale: int, grow: bool) -> int {
    if grow {
        if scale * 11 / 10 > SCALE_LIMIT {
            SCALE_LIMIT as int
        } else {
            scale * 11 / 10
        }
    } else {
        scale
    }
}

/// Advance the player by the held movement keys, scaled by the player
/// speed and the frame delta; the debug grow key inflates the scale.
pub fn gameplay_player_movement(w: &mut GameWorld, input: PlayerInput, dt: i64)
    requires
        old(w).wf(),
        0 <= dt <= DT_MAX_MS,
    ensures
        final(w).player.pos.x == old(w).player.pos.x + player_dir_x(input) * PLAYER_SPEED * dt,
        final(w).player.pos.y == old(w).player.pos.y + player_dir_y(input) * PLAYER_SPEED * dt,
        final(w).player.scale == grown_scale(old(w).player.scale as int, input.grow),
        *final(w) == (GameWorld { player: final(w).player, ..*old(w) }),
        final(w).core_wf(),
        final(w).pos_ok(POS_SLACK_LIMIT as int),
        abs_i(final(w).player.pos.x as int) <= POS_LIMIT + PLAYER_SPEED * DT_MAX_MS,
        abs_i(final(w).player.pos.y as int) <= POS_LIMIT + PLAYER_SPEED * DT_MAX_MS,
{
    let mut dir_x: i64 = 0;
    let mut dir_y: i64 = 0;
    if input.left {
        dir_x = dir_x - 1;
    }
    if input.right {
        dir_x = dir_x + 1;
    }
    if input.up {
        dir_y = dir_y + 1;
    }
    if input.down {
        dir_y = dir_y - 1;
    }
    if input.grow {
        proof {
            let sc = w.player.scale as int;
            assert(0 < sc * 11 / 10 <= sc * 2) by (nonlinear_arith)
                requires
                    0 < sc <= SCALE_LIMIT,
            ;
        }
        let s: i64 = w.player.scale * 11 / 10;
        w.player.scale = if s > SCALE_LIMIT {
            SCALE_LIMIT
        } else {
            s
        };
    }
    proof {
        assert(abs_i(dir_x * PLAYER_SPEED * dt) <= PLAYER_SPEED * DT_MAX_MS && abs_i(
            dir_y * PLAYER_SPEED * dt,
        ) <= PLAYER_SPEED * DT_MAX_MS) by (nonlinear_arith)
            requires
                -1 <= dir_x <= 1,
                -1 <= dir_y <= 1,
                0 <= dt <= DT_MAX_MS,
        ;
    }
    w.player.pos.x = w.player.pos.x + dir_x * PLAYER_SPEED * dt;
    w.player.pos.y = w.player.pos.y + dir_y * PLAYER_SPEED * dt;
}

/// Escape cancels back to the title, the skip key ends the round; the skip
/// key wins when both are held.
pub fn gameplay_exit_to_title(escape: bool, skip: bool) -> (next: Option<GameState>)
    ensures
        next == (if skip {
            Some(GameState::End)
        } else if escape {
            Some(GameState::Title)
        } else {
            None::<GameState>
        }),
{
    if skip {
        Some(GameState::End)
    } else if escape {
        Some(GameState::Title)
    } else {
        None
    }
}

/// What a freshly spawned candy looks like: live, at scale 1.0, with a
/// unit direction, positioned inside the window, and with its
/// direction-change timestamp cleared.
pub open spec fn spawned_candy_ok(c: Candy, win: WindowSize) -> bool {
    &&& c.alive
    &&& c.scale == SCALE_ONE
    &&& c.timestamp_changed_direction == 0
    &&& is_unit_dir(c.direction.x as int, c.direction.y as int)
    &&& abs_i(c.pos.x as int) <= win.w_px * 500
    &&& abs_i(c.pos.y as int) <= win.h_px * 500
}

/// First free arena slot, or the length when every slot is taken.
fn find_free_slot(v: &Vec<Candy>) -> (r: usize)
    ensures
        r <= v@.len(),
        r < v@.len() ==> !v@[r as int].alive,
        forall|j: int| 0 <= j < r ==> (#[trigger] v@[j]).alive,
{
    let n: usize = v.len();
    let mut i: usize = 0;
    while i < n
        invariant
            i <= n,
            n == v@.len(),
            forall|j: int| 0 <= j < i ==> (#[trigger] v@[j]).alive,
        decreases n - i,
    {
        if !v[i].alive {
            return i;
        }
        i = i + 1;
    }
    n
}

/// Create one candy at a uniformly random position within the window, with
/// a uniformly random (then normalized) direction. The new candy fills the
/// first free arena slot, or a fresh slot when all are taken.
pub fn spawn_candy(w: &mut GameWorld) -> (i: usize)
    requires
        old(w).core_wf(),
        old(w).live_candies() < MAX_CANDY,
    ensures
        final(w).core_wf(),
        *final(w) == (GameWorld { candies: final(w).candies, ..*old(w) }),
        final(w).live_candies() == old(w).live_candies() + 1,
        i < final(w).candies@.len(),
        spawned_candy_ok(final(w).candies@[i as int], old(w).window),
        old(w).candies@.len() <= final(w).candies@.len() <= old(w).candies@.len() + 1,
        forall|j: int|
            0 <= j < old(w).candies@.len() && j != i ==> final(w).candies@[j] == old(
                w,
            ).candies@[j],
        i < old(w).candies@.len() ==> (!old(w).candies@[i as int].alive
            && final(w).candies@.len() == old(w).candies@.len()),
        i >= old(w).candies@.len() ==> (i == old(w).candies@.len() && final(w).candies@.len()
            == old(w).candies@.len() + 1),
        old(w).pos_ok(POS_LIMIT as int) ==> final(w).pos_ok(POS_LIMIT as int),
        old(w).pos_ok(POS_SLACK_LIMIT as int) ==> final(w).pos_ok(POS_SLACK_LIMIT as int),
{
    let half_w: i64 = w.window.w_px * 500;
    let half_h: i64 = w.window.h_px * 500;
    let px: i64 = random_in_range(-half_w, half_w);
    let py: i64 = random_in_range(-half_h, half_h);
    let rdx: i64 = random_in_range(-1000, 1000);
    let rdy: i64 = random_in_range(-1000, 1000);
    let direction: Vec2 = normalize_or_axis(rdx, rdy);
    let c = Candy {
        pos: Vec2 { x: px, y: py },
        direction,
        timestamp_changed_direction: 0,
        scale: SCALE_ONE,
        alive: true,
    };
    let idx: usize = find_free_slot(&w.candies);
    if idx < w.candies.len() {
        proof {
            lemma_alive_count_update(w.candies@, idx as int, c);
        }
        w.candies[idx] = c;
        idx
    } else {
        proof {
            lemma_alive_count_full(w.candies@);
            lemma_alive_count_push(w.candies@, c);
        }
        w.candies.push(c);
        idx
    }
}

/// How many candies one spawner pass creates: none at the ceiling;
/// otherwise one for a finished timer, and one more for the manual debug
/// key if the ceiling still allows it.
pub open spec fn spawn_count_spec(live: nat, rem: int, dt: int, manual: bool) -> nat {
    if live >= MAX_CANDY {
        0
    } else {
        let first: nat = if dt >= rem {
            1
        } else {
            0
        };
        if manual && live + first < MAX_CANDY {
            first + 1
        } else {
            first
        }
    }
}

/// The spawner: a no-op at the candy ceiling; otherwise it advances the
/// repeating spawn timer and creates a candy on each tick that finishes
/// it, plus one for the manual debug key, never exceeding the ceiling.
pub fn gameplay_spawn_candy_timer(w: &mut GameWorld, dt: i64, manual_spawn: bool) -> (spawned:
    usize)
    requires
        old(w).core_wf(),
        0 <= dt <= DT_MAX_MS,
    ensures
        final(w).core_wf(),
        *final(w) == (GameWorld {
            candies: final(w).candies,
            spawn_timer: final(w).spawn_timer,
            ..*old(w)
        }),
        spawned == spawn_count_spec(
            old(w).live_candies(),
            old(w).spawn_timer.remaining_ms as int,
            dt as int,
            manual_spawn,
        ),
        final(w).live_candies() == old(w).live_candies() + spawned,
        final(w).live_candies() <= MAX_CANDY,
        old(w).live_candies() >= MAX_CANDY ==> *final(w) == *old(w),
        final(w).spawn_timer == (if old(w).live_candies() >= MAX_CANDY {
            old(w).spawn_timer
        } else {
            crate::world::CandySpawnTimer {
                remaining_ms: timer_rem_after(
                    old(w).spawn_timer.remaining_ms as int,
                    old(w).spawn_timer.period_ms as int,
                    dt as int,
                ) as i64,
                period_ms: old(w).spawn_timer.period_ms,
            }
        }),
        old(w).candies@.len() <= final(w).candies@.len() <= old(w).candies@.len() + 2,
        forall|j: int|
            0 <= j < old(w).candies@.len() && (#[trigger] old(w).candies@[j]).alive
                ==> final(w).candies@[j] == old(w).candies@[j],
        forall|j: int|
            0 <= j < final(w).candies@.len() ==> final(w).candies@[j] == old(w).candies@[j]
                || spawned_candy_ok(#[trigger] final(w).candies@[j], old(w).window),
        old(w).pos_ok(POS_LIMIT as int) ==> final(w).pos_ok(POS_LIMIT as int),
        old(w).pos_ok(POS_SLACK_LIMIT as int) ==> final(w).pos_ok(POS_SLACK_LIMIT as int),
{
    let live: usize = w.count_live_candies();
    if live >= MAX_CANDY {
        return 0;
    }
    let mut timer = w.spawn_timer;
    let finished: bool = timer.tick(dt);
    w.spawn_timer = timer;
    let mut spawned: usize = 0;
    if finished {
        spawn_candy(w);
        spawned = 1;
    }
    if manual_spawn && live + spawned < MAX_CANDY {
        spawn_candy(w);
        spawned = spawned + 1;
    }
    spawned
}

/// A candy's x position after base movement: its direction (per-mille)
/// times the candy speed, scaled by the frame delta.
pub open spec fn candy_base_x(c: Candy, dt: int) -> int {
    c.pos.x + div_tz(c.direction.x * CANDY_SPEED * dt, 1000)
}

pub open spec fn candy_base_y(c: Candy, dt: int) -> int {
    c.pos.y + div_tz(c.direction.y * CANDY_SPEED * dt, 1000)
}

/// A candy's x position after base movement and the attraction force:
/// within the attraction radius the candy is pulled toward the player by
/// `ATTRACT_BASE - distance` (distance floored to avoid a singularity),
/// scaled by the frame delta, on top of the base movement.
pub open spec fn candy_moved_x(c: Candy, ppos: Vec2, dt: int) -> int {
    let bx = candy_base_x(c, dt);
    let by = candy_base_y(c, dt);
    let d = dist_spec(bx, by, ppos.x as int, ppos.y as int);
    if d < ATTRACT_RADIUS {
        let dc = if d < ATTRACT_MIN_DIST {
            ATTRACT_MIN_DIST as int
        } else {
            d
        };
        bx + div_tz(norm_dir_x(ppos.x - bx, ppos.y - by) * (ATTRACT_BASE - dc) * dt, 1_000_000)
    } else {
        bx
    }
}

pub open spec fn candy_moved_y(c: Candy, ppos: Vec2, dt: int) -> int {
    let bx = candy_base_x(c, dt);
    let by = candy_base_y(c, dt);
    let d = dist_spec(bx, by, ppos.x as int, ppos.y as int);
    if d < ATTRACT_RADIUS {
        let dc = if d < ATTRACT_MIN_DIST {
            ATTRACT_MIN_DIST as int
        } else {
            d
        };
        by + div_tz(norm_dir_y(ppos.x - bx, ppos.y - by) * (ATTRACT_BASE - dc) * dt, 1_000_000)
    } else {
        by
    }
}

/// How one movement pass changes one arena slot: a live candy moves by its
/// direction and the attraction force, everything else about it unchanged;
/// a free slot is untouched.
pub open spec fn moved_candy_rel(c0: Candy, c1: Candy, ppos: Vec2, dt: int) -> bool {
    if c0.alive {
        &&& c1.pos.x == candy_moved_x(c0, ppos, dt)
        &&& c1.pos.y == candy_moved_y(c0, ppos, dt)
        &&& c1.direction == c0.direction
        &&& c1.timestamp_changed_direction == c0.timestamp_changed_direction
        &&& c1.scale == c0.scale
        &&& c1.alive
    } else {
        c1 == c0
    }
}

/// Move one candy: base movement along its stored direction, then the
/// attraction pull toward the player when it is within the radius.
fn move_one_candy(c: Candy, ppos: Vec2, dt: i64) -> (r: Candy)
    requires
        candy_core_wf(c),
        abs_i(c.pos.x as int) <= POS_MID_LIMIT,
        abs_i(c.pos.y as int) <= POS_MID_LIMIT,
        abs_i(ppos.x as int) <= POS_MID_LIMIT,
        abs_i(ppos.y as int) <= POS_MID_LIMIT,
        0 <= dt <= DT_MAX_MS,
    ensures
        r.pos.x == candy_moved_x(c, ppos, dt as int),
        r.pos.y == candy_moved_y(c, ppos, dt as int),
        r.direction == c.direction,
        r.timestamp_changed_direction == c.timestamp_changed_direction,
        r.scale == c.scale,
        r.alive == c.alive,
        abs_i(r.pos.x as int) <= POS_SLACK_LIMIT,
        abs_i(r.pos.y as int) <= POS_SLACK_LIMIT,
{
    proof {
        lemma_unit_dir_bounds(c.direction.x as int, c.direction.y as int);
        let dx = c.direction.x as int;
        let dy = c.direction.y as int;
        assert(abs_i(dx * CANDY_SPEED * dt) <= 16_000_000_000 && abs_i(dy * CANDY_SPEED * dt)
            <= 16_000_000_000) by (nonlinear_arith)
            requires
                abs_i(dx) <= 1005,
                abs_i(dy) <= 1005,
                0 <= dt <= DT_MAX_MS,
        ;
    }
    let sdx: i64 = c.direction.x * CANDY_SPEED;
    let sdy: i64 = c.direction.y * CANDY_SPEED;
    let bx: i64 = c.pos.x + mul_div_tz(sdx, dt, 1000);
    let by: i64 = c.pos.y + mul_div_tz(sdy, dt, 1000);
    let d: i64 = dist_milli(Vec2 { x: bx, y: by }, ppos);
    let npos: Vec2 = if d < ATTRACT_RADIUS {
        let dc: i64 = if d < ATTRACT_MIN_DIST {
            ATTRACT_MIN_DIST
        } else {
            d
        };
        let u: Vec2 = normalize_or_axis(ppos.x - bx, ppos.y - by);
        let force: i64 = ATTRACT_BASE - dc;
        proof {
            lemma_unit_dir_bounds(u.x as int, u.y as int);
            let ux = u.x as int;
            let uy = u.y as int;
            assert(abs_i(ux * force) <= 380_000_000 && abs_i(uy * force) <= 380_000_000 && abs_i(
                ux * force * dt,
            ) <= 23_000_000_000_000 && abs_i(uy * force * dt) <= 23_000_000_000_000)
                by (nonlinear_arith)
                requires
                    abs_i(ux) <= 1005,
                    abs_i(uy) <= 1005,
                    200_000 <= force <= 375_000,
                    0 <= dt <= DT_MAX_MS,
            ;
        }
        let fx: i64 = u.x * force;
        let fy: i64 = u.y * force;
        Vec2 { x: bx + mul_div_tz(fx, dt, 1_000_000), y: by + mul_div_tz(fy, dt, 1_000_000) }
    } else {
        Vec2 { x: bx, y: by }
    };
    Candy { pos: npos, ..c }
}

/// Advance every live candy by its stored direction scaled by the candy
/// speed and the frame delta, then pull those within the attraction radius
/// toward the player.
pub fn gameplay_candy_movement(w: &mut GameWorld, dt: i64)
    requires
        old(w).core_wf(),
        old(w).pos_ok(POS_MID_LIMIT as int),
        0 <= dt <= DT_MAX_MS,
    ensures
        final(w).core_wf(),
        *final(w) == (GameWorld { candies: final(w).candies, ..*old(w) }),
        final(w).candies@.len() == old(w).candies@.len(),
        forall|i: int|
            0 <= i < old(w).candies@.len() ==> moved_candy_rel(
                old(w).candies@[i],
                #[trigger] final(w).candies@[i],
                old(w).player.pos,
                dt as int,
            ),
        final(w).pos_ok(POS_SLACK_LIMIT as int),
        final(w).live_candies() == old(w).live_candies(),
{
    let ppos: Vec2 = w.player.pos;
    let n: usize = w.candies.len();
    let mut i: usize = 0;
    while i < n
        invariant
            i <= n,
            n == w.candies@.len(),
            *w == (GameWorld { candies: w.candies, ..*old(w) }),
            old(w).core_wf(),
            old(w).pos_ok(POS_MID_LIMIT as int),
            0 <= dt <= DT_MAX_MS,
            ppos == old(w).player.pos,
            n == old(w).candies@.len(),
            forall|j: int| i <= j < n ==> #[trigger] w.candies@[j] == old(w).candies@[j],
            forall|j: int|
                0 <= j < i ==> moved_candy_rel(
                    old(w).candies@[j],
                    #[trigger] w.candies@[j],
                    ppos,
                    dt as int,
                ),
            forall|j: int|
                0 <= j < i && (#[trigger] w.candies@[j]).alive ==> abs_i(
                    w.candies@[j].pos.x as int,
                ) <= POS_SLACK_LIMIT && abs_i(w.candies@[j].pos.y as int) <= POS_SLACK_LIMIT,
        decreases n - i,
    {
        let c: Candy = w.candies[i];
        if c.alive {
            let nc: Candy = move_one_candy(c, ppos, dt);
            w.candies[i] = nc;
        }
        i = i + 1;
    }
    proof {
        lemma_alive_count_pointwise(old(w).candies@, w.candies@);
    }
}

/// Whether a candy's position has crossed its confinement rectangle on the
/// x axis, which flips the x component of its direction.
pub open spec fn bounce_flip_x(c: Candy, win: WindowSize, img: ImageSize) -> bool {
    c.pos.x <= rect_min_x_spec(win.w_px as int, img.w_px as int, c.scale as int) || c.pos.x
        >= rect_max_x_spec(win.w_px as int, img.w_px as int, c.scale as int)
}

pub open spec fn bounce_flip_y(c: Candy, win: WindowSize, img: ImageSize) -> bool {
    c.pos.y <= rect_min_y_spec(win.h_px as int, img.h_px as int, c.scale as int) || c.pos.y
        >= rect_max_y_spec(win.h_px as int, img.h_px as int, c.scale as int)
}

pub open spec fn bounce_changed(c: Candy, win: WindowSize, img: ImageSize) -> bool {
    bounce_flip_x(c, win, img) || bounce_flip_y(c, win, img)
}

/// A bounce makes a sound only when the candy last changed direction more
/// than the debounce interval ago.
pub open spec fn bounce_sound(c: Candy, win: WindowSize, img: ImageSize, now: int) -> bool {
    bounce_changed(c, win, img) && now - c.timestamp_changed_direction > BOUNCE_DEBOUNCE_MS
}

/// How one direction-update pass changes one arena slot: boundary
/// crossings negate the crossed axis of a live candy's direction and stamp
/// the change time; a free slot is untouched.
pub open spec fn bounced_candy_rel(
    c0: Candy,
    c1: Candy,
    win: WindowSize,
    img: ImageSize,
    now: int,
) -> bool {
    if c0.alive {
        &&& c1.direction.x == (if bounce_flip_x(c0, win, img) {
            -(c0.direction.x as int)
        } else {
            c0.direction.x as int
        })
        &&& c1.direction.y == (if bounce_flip_y(c0, win, img) {
            -(c0.direction.y as int)
        } else {
            c0.direction.y as int
        })
        &&& c1.timestamp_changed_direction == (if bounce_changed(c0, win, img) {
            now
        } else {
            c0.timestamp_changed_direction as int
        })
        &&& c1.pos == c0.pos
        &&& c1.scale == c0.scale
        &&& c1.alive
    } else {
        c1 == c0
    }
}

/// How many of the first `k` slots hold a live candy that bounces audibly
/// this pass.
pub open spec fn bounce_sound_count(
    s: Seq<Candy>,
    win: WindowSize,
    img: ImageSize,
    now: int,
    k: int,
) -> nat
    decreases k,
{
    if k <= 0 {
        0
    } else {
        bounce_sound_count(s, win, img, now, k - 1) + if s[k - 1].alive && bounce_sound(
            s[k - 1],
            win,
            img,
            now,
        ) {
            1nat
        } else {
            0nat
        }
    }
}

/// Flip the direction of every live candy that crossed its confinement
/// boundary, stamping the change time; returns how many bounce sounds to
/// play, at most one per candy, debounced per candy.
pub fn gameplay_update_candy_direction(w: &mut GameWorld) -> (sounds: usize)
    requires
        old(w).core_wf(),
        old(w).pos_ok(POS_SLACK_LIMIT as int),
    ensures
        final(w).core_wf(),
        *final(w) == (GameWorld { candies: final(w).candies, ..*old(w) }),
        final(w).candies@.len() == old(w).candies@.len(),
        forall|i: int|
            0 <= i < old(w).candies@.len() ==> bounced_candy_rel(
                old(w).candies@[i],
                #[trigger] final(w).candies@[i],
                old(w).window,
                old(w).candy_img,
                old(w).now_ms as int,
            ),
        sounds == bounce_sound_count(
            old(w).candies@,
            old(w).window,
            old(w).candy_img,
            old(w).now_ms as int,
            old(w).candies@.len() as int,
        ),
        final(w).pos_ok(POS_SLACK_LIMIT as int),
        final(w).live_candies() == old(w).live_candies(),
{
    let now: i64 = w.now_ms;
    let win: WindowSize = w.window;
    let img: ImageSize = w.candy_img;
    let n: usize = w.candies.len();
    let mut sounds: usize = 0;
    let mut i: usize = 0;
    while i < n
        invariant
            i <= n,
            n == w.candies@.len(),
            *w == (GameWorld { candies: w.candies, ..*old(w) }),
            old(w).core_wf(),
            old(w).pos_ok(POS_SLACK_LIMIT as int),
            now == old(w).now_ms,
            win == old(w).window,
            img == old(w).candy_img,
            n == old(w).candies@.len(),
            sounds <= i,
            forall|j: int| i <= j < n ==> #[trigger] w.candies@[j] == old(w).candies@[j],
            forall|j: int|
                0 <= j < i ==> bounced_candy_rel(
                    old(w).candies@[j],
                    #[trigger] w.candies@[j],
                    win,
                    img,
                    now as int,
                ),
            forall|j: int|
                0 <= j < i ==> candy_core_wf(#[trigger] w.candies@[j]) && w.candies@[j].pos == old(
                    w,
                ).candies@[j].pos,
            sounds == bounce_sound_count(old(w).candies@, win, img, now as int, i as int),
        decreases n - i,
    {
        let c: Candy = w.candies[i];
        if c.alive {
            proof {
                lemma_unit_dir_bounds(c.direction.x as int, c.direction.y as int);
                lemma_flip_preserves_unit(
                    c.direction.x as int,
                    c.direction.y as int,
                    bounce_flip_x(c, win, img),
                    bounce_flip_y(c, win, img),
                );
            }
            let rect: Rect = calculate_confinement_rect(win, img, c.scale);
            let flip_x: bool = c.pos.x <= rect.min_x || c.pos.x >= rect.max_x;
            let flip_y: bool = c.pos.y <= rect.min_y || c.pos.y >= rect.max_y;
            let changed: bool = flip_x || flip_y;
            let mut nc: Candy = c;
            if flip_x {
                nc.direction.x = -c.direction.x;
            }
            if flip_y {
                nc.direction.y = -c.direction.y;
            }
            if changed {
                if now - c.timestamp_changed_direction > BOUNCE_DEBOUNCE_MS {
                    sounds = sounds + 1;
                }
                nc.timestamp_changed_direction = now;
            }
            w.candies[i] = nc;
        }
        i = i + 1;
    }
    proof {
        lemma_alive_count_pointwise(old(w).candies@, w.candies@);
    }
    sounds
}

/// Scale after the confinement clamp: held in the 1.0 to 6.0 band.
pub open spec fn conf_scale(s: int) -> int {
    clamp_spec(s, SCALE_CLAMP_MIN as int, SCALE_CLAMP_MAX as int)
}

/// An x coordinate clamped into the confinement rectangle derived from the
/// already-clamped scale `s`.
pub open spec fn conf_pos_x(x: int, win_w: int, img_w: int, s: int) -> int {
    clamp_spec(x, rect_min_x_spec(win_w, img_w, s), rect_max_x_spec(win_w, img_w, s))
}

pub open spec fn conf_pos_y(y: int, win_h: int, img_h: int, s: int) -> int {
    clamp_spec(y, rect_min_y_spec(win_h, img_h, s), rect_max_y_spec(win_h, img_h, s))
}

/// How the clamp changes one entity: scale into the band first, then the
/// position into the rectangle derived from the clamped scale.
pub open spec fn confined_rel(
    pos0: Vec2,
    scale0: int,
    pos1: Vec2,
    scale1: int,
    win: WindowSize,
    img: ImageSize,
) -> bool {
    &&& scale1 == conf_scale(scale0)
    &&& pos1.x == conf_pos_x(pos0.x as int, win.w_px as int, img.w_px as int, scale1)
    &&& pos1.y == conf_pos_y(pos0.y as int, win.h_px as int, img.h_px as int, scale1)
}

/// Clamp one entity's scale and position.
fn confine_one(pos: Vec2, scale: i64, win: WindowSize, img: ImageSize) -> (r: (Vec2, i64))
    requires
        1 <= win.w_px <= WINDOW_PX_MAX,
        1 <= win.h_px <= WINDOW_PX_MAX,
        1 <= img.w_px <= IMG_PX_MAX,
        1 <= img.h_px <= IMG_PX_MAX,
        img.w_px * 6 <= win.w_px,
        img.h_px * 6 <= win.h_px,
        0 <= scale <= 2 * SCALE_LIMIT,
    ensures
        confined_rel(pos, scale as int, r.0, r.1 as int, win, img),
        SCALE_CLAMP_MIN <= r.1 <= SCALE_CLAMP_MAX,
        abs_i(r.0.x as int) <= win.w_px * 500,
        abs_i(r.0.y as int) <= win.h_px * 500,
        rect_min_x_spec(win.w_px as int, img.w_px as int, r.1 as int) <= r.0.x <= rect_max_x_spec(
            win.w_px as int,
            img.w_px as int,
            r.1 as int,
        ),
        rect_min_y_spec(win.h_px as int, img.h_px as int, r.1 as int) <= r.0.y <= rect_max_y_spec(
            win.h_px as int,
            img.h_px as int,
            r.1 as int,
        ),
{
    let s: i64 = clamp_i64(scale, SCALE_CLAMP_MIN, SCALE_CLAMP_MAX);
    proof {
        lemma_rect_nonempty(win.w_px as int, img.w_px as int, s as int);
        lemma_rect_nonempty(win.h_px as int, img.h_px as int, s as int);
        assert(half_extent_spec(img.w_px as int, s as int) >= 0 && half_extent_spec(
            img.h_px as int,
            s as int,
        ) >= 0) by (nonlinear_arith)
            requires
                img.w_px >= 0,
                img.h_px >= 0,
                s >= 0,
        ;
    }
    let rect: Rect = calculate_confinement_rect(win, img, s);
    let x: i64 = clamp_i64(pos.x, rect.min_x, rect.max_x);
    let y: i64 = clamp_i64(pos.y, rect.min_y, rect.max_y);
    (Vec2 { x, y }, s)
}

/// After all movement and collisions, clamp every entity's scale into the
/// 1.0 to 6.0 band and its position into the confinement rectangle derived
/// from the current window size, image size, and clamped scale. Runs last
/// in the frame, so settled positions never escape their bounds.
pub fn gameplay_confine_entity_movement(w: &mut GameWorld)
    requires
        old(w).core_wf(),
        old(w).pos_ok(POS_SLACK_LIMIT as int),
    ensures
        final(w).wf(),
        *final(w) == (GameWorld { candies: final(w).candies, player: final(w).player, ..*old(w) }),
        confined_rel(
            old(w).player.pos,
            old(w).player.scale as int,
            final(w).player.pos,
            final(w).player.scale as int,
            old(w).window,
            old(w).player_img,
        ),
        final(w).candies@.len() == old(w).candies@.len(),
        forall|i: int|
            0 <= i < old(w).candies@.len() ==> (if old(w).candies@[i].alive {
                confined_rel(
                    old(w).candies@[i].pos,
                    old(w).candies@[i].scale as int,
                    (#[trigger] final(w).candies@[i]).pos,
                    final(w).candies@[i].scale as int,
                    old(w).window,
                    old(w).candy_img,
                ) && final(w).candies@[i] == (Candy {
                    pos: final(w).candies@[i].pos,
                    scale: final(w).candies@[i].scale,
                    ..old(w).candies@[i]
                })
            } else {
                final(w).candies@[i] == old(w).candies@[i]
            }),
        SCALE_CLAMP_MIN <= final(w).player.scale <= SCALE_CLAMP_MAX,
        final(w).live_candies() == old(w).live_candies(),
{
    let win: WindowSize = w.window;
    let (ppos, pscale) = confine_one(w.player.pos, w.player.scale, win, w.player_img);
    w.player.pos = ppos;
    w.player.scale = pscale;
    let img: ImageSize = w.candy_img;
    let n: usize = w.candies.len();
    let mut i: usize = 0;
    while i < n
        invariant
            i <= n,
            n == w.candies@.len(),
            *w == (GameWorld { candies: w.candies, player: w.player, ..*old(w) }),
            w.player.pos == ppos,
            w.player.scale == pscale,
            old(w).core_wf(),
            old(w).pos_ok(POS_SLACK_LIMIT as int),
            win == old(w).window,
            img == old(w).candy_img,
            n == old(w).candies@.len(),
            forall|j: int| i <= j < n ==> #[trigger] w.candies@[j] == old(w).candies@[j],
            forall|j: int|
                0 <= j < i ==> (if old(w).candies@[j].alive {
                    confined_rel(
                        old(w).candies@[j].pos,
                        old(w).candies@[j].scale as int,
                        (#[trigger] w.candies@[j]).pos,
                        w.candies@[j].scale as int,
                        win,
                        img,
                    ) && w.candies@[j] == (Candy {
                        pos: w.candies@[j].pos,
                        scale: w.candies@[j].scale,
                        ..old(w).candies@[j]
                    })
                } else {
                    w.candies@[j] == old(w).candies@[j]
                }),
            forall|j: int|
                0 <= j < i ==> candy_core_wf(#[trigger] w.candies@[j]) && (w.candies@[j].alive
                    ==> abs_i(w.candies@[j].pos.x as int) <= POS_LIMIT && abs_i(
                    w.candies@[j].pos.y as int,
                ) <= POS_LIMIT),
        decreases n - i,
    {
        let c: Candy = w.candies[i];
        if c.alive {
            let (cpos, cscale) = confine_one(c.pos, c.scale, win, img);
            let nc = Candy { pos: cpos, scale: cscale, ..c };
            w.candies[i] = nc;
        }
        i = i + 1;
    }
    proof {
        lemma_alive_count_pointwise(old(w).candies@, w.candies@);
    }
}

/// Law: a candy's direction vector remains unit-length after any bounce,
/// whichever axes the bounce flips.
pub proof fn lemma_bounce_preserves_unit_direction(c: Candy, win: WindowSize, img: ImageSize)
    requires
        is_unit_dir(c.direction.x as int, c.direction.y as int),
    ensures
        is_unit_dir(
            if bounce_flip_x(c, win, img) {
                -(c.direction.x as int)
            } else {
                c.direction.x as int
            },
            if bounce_flip_y(c, win, img) {
                -(c.direction.y as int)
            } else {
                c.direction.y as int
            },
        ),
{
    lemma_flip_preserves_unit(
        c.direction.x as int,
        c.direction.y as int,
        bounce_flip_x(c, win, img),
        bounce_flip_y(c, win, img),
    );
}

/// Law: at the candy ceiling the spawner creates nothing, whatever the
/// timer or the debug key say.
pub proof fn lemma_spawner_noop_at_ceiling(live: nat, rem: int, dt: int, manual: bool)
    requires
        live >= MAX_CANDY,
    ensures
        spawn_count_spec(live, rem, dt, manual) == 0,
{
}

/// Law: a clamped entity lies within the confinement rectangle derived
/// from the window size, its image size, and its (clamped) scale, and its
/// scale lies within the 1.0 to 6.0 band — whenever the sprite fits the
/// window at the largest clamped scale.
pub proof fn lemma_confined_in_rect(
    pos0: Vec2,
    scale0: int,
    pos1: Vec2,
    scale1: int,
    win: WindowSize,
    img: ImageSize,
)
    requires
        confined_rel(pos0, scale0, pos1, scale1, win, img),
        0 <= img.w_px,
        0 <= img.h_px,
        img.w_px * 6 <= win.w_px,
        img.h_px * 6 <= win.h_px,
    ensures
        SCALE_CLAMP_MIN <= scale1 <= SCALE_CLAMP_MAX,
        rect_min_x_spec(win.w_px as int, img.w_px as int, scale1) <= pos1.x <= rect_max_x_spec(
            win.w_px as int,
            img.w_px as int,
            scale1,
        ),
        rect_min_y_spec(win.h_px as int, img.h_px as int, scale1) <= pos1.y <= rect_max_y_spec(
            win.h_px as int,
            img.h_px as int,
            scale1,
        ),
{
    lemma_rect_nonempty(win.w_px as int, img.w_px as int, scale1);
    lemma_rect_nonempty(win.h_px as int, img.h_px as int, scale1);
}

/// Law: the confinement clamp is idempotent — clamping an already clamped
/// entity changes nothing, so invoking the clamp twice in succession
/// yields the same result as once.
pub proof fn lemma_confine_idempotent(
    pos0: Vec2,
    scale0: int,
    pos1: Vec2,
    scale1: int,
    pos2: Vec2,
    scale2: int,
    win: WindowSize,
    img: ImageSize,
)
    requires
        confined_rel(pos0, scale0, pos1, scale1, win, img),
        confined_rel(pos1, scale1, pos2, scale2, win, img),
        0 <= img.w_px,
        0 <= img.h_px,
        img.w_px * 6 <= win.w_px,
        img.h_px * 6 <= win.h_px,
    ensures
        pos2 == pos1,
        scale2 == scale1,
{
    lemma_confined_in_rect(pos0, scale0, pos1, scale1, win, img);
    lemma_confined_in_rect(pos1, scale1, pos2, scale2, win, img);
}

/// Whether a live candy overlaps the player enough to be eaten: the
/// center-to-center distance, less both size-derived half-extents, is at
/// or below the (negative) collision threshold.
pub open spec fn candy_overlaps(c: Candy, ppos: Vec2, pscale: int, pimg_w: int, cimg_w: int) -> bool {
    dist_spec(ppos.x as int, ppos.y as int, c.pos.x as int, c.pos.y as int) - half_extent_spec(
        pimg_w,
        pscale,
    ) - half_extent_spec(cimg_w, c.scale as int) <= COLLISION_OVERLAP
}

/// One candy's worth of growth, saturating at the headroom bound (far
/// beyond the visual clamp).
pub open spec fn scale_plus_step(p: int) -> int {
    if p + GROWTH_STEP > SCALE_LIMIT {
        SCALE_LIMIT as int
    } else {
        p + GROWTH_STEP
    }
}

/// The player's scale after the collision pass has processed the first `k`
/// slots: each eaten candy grows the player, and later candies in the same
/// pass see the grown player.
pub open spec fn collide_scale_after(
    s: Seq<Candy>,
    ppos: Vec2,
    pscale0: int,
    pimg_w: int,
    cimg_w: int,
    k: int,
) -> int
    decreases k,
{
    if k <= 0 {
        pscale0
    } else {
        let prev = collide_scale_after(s, ppos, pscale0, pimg_w, cimg_w, k - 1);
        if s[k - 1].alive && candy_overlaps(s[k - 1], ppos, prev, pimg_w, cimg_w) {
            scale_plus_step(prev)
        } else {
            prev
        }
    }
}

/// Whether the collision pass eats the candy in slot `i`: it must be live
/// when the pass reaches it, and overlap the player at the scale the pass
/// has grown to by then. A free (despawned) slot is never hit.
pub open spec fn collide_hit(
    s: Seq<Candy>,
    ppos: Vec2,
    pscale0: int,
    pimg_w: int,
    cimg_w: int,
    i: int,
) -> bool {
    s[i].alive && candy_overlaps(
        s[i],
        ppos,
        collide_scale_after(s, ppos, pscale0, pimg_w, cimg_w, i),
        pimg_w,
        cimg_w,
    )
}

/// How many of the first `k` slots the collision pass eats.
pub open spec fn collide_count(
    s: Seq<Candy>,
    ppos: Vec2,
    pscale0: int,
    pimg_w: int,
    cimg_w: int,
    k: int,
) -> nat
    decreases k,
{
    if k <= 0 {
        0
    } else {
        collide_count(s, ppos, pscale0, pimg_w, cimg_w, k - 1) + if collide_hit(
            s,
            ppos,
            pscale0,
            pimg_w,
            cimg_w,
            k - 1,
        ) {
            1nat
        } else {
            0nat
        }
    }
}

/// Law: over one collision pass the player grows by exactly one growth
/// step (0.03) per candy eaten — the final scale is the starting scale
/// plus `GROWTH_STEP` times the number of candies the pass eats — as long
/// as the total stays within the headroom bound at which growth saturates
/// (a thousandfold scale, unreachable from any clamped state).
pub proof fn lemma_collision_growth_linear(
    s: Seq<Candy>,
    ppos: Vec2,
    pscale0: int,
    pimg_w: int,
    cimg_w: int,
    k: int,
)
    requires
        0 <= k,
        pscale0 + GROWTH_STEP * collide_count(s, ppos, pscale0, pimg_w, cimg_w, k) <= SCALE_LIMIT,
    ensures
        collide_scale_after(s, ppos, pscale0, pimg_w, cimg_w, k) == pscale0 + GROWTH_STEP
            * collide_count(s, ppos, pscale0, pimg_w, cimg_w, k),
    decreases k,
{
    if k > 0 {
        lemma_collision_growth_linear(s, ppos, pscale0, pimg_w, cimg_w, k - 1);
    }
}

/// Law: collision is at-most-once per candy. A slot already despawned is
/// never hit by a collision pass; and a candy that a pass does hit leaves
/// that pass despawned, so no later pass — with whatever player position
/// and scale — hits it again.
pub proof fn lemma_collision_at_most_once(
    s: Seq<Candy>,
    s1: Seq<Candy>,
    ppos: Vec2,
    pscale0: int,
    pimg_w: int,
    cimg_w: int,
    i: int,
    ppos2: Vec2,
    pscale2: int,
)
    requires
        0 <= i < s.len(),
        s.len() == s1.len(),
        s1[i] == (if collide_hit(s, ppos, pscale0, pimg_w, cimg_w, i) {
            Candy { alive: false, ..s[i] }
        } else {
            s[i]
        }),
    ensures
        !s[i].alive ==> !collide_hit(s, ppos, pscale0, pimg_w, cimg_w, i) && s1[i] == s[i],
        collide_hit(s, ppos, pscale0, pimg_w, cimg_w, i) ==> !collide_hit(
            s1,
            ppos2,
            pscale2,
            pimg_w,
            cimg_w,
            i,
        ),
{
}

/// Resolve player-candy collisions: each live candy whose size-adjusted
/// distance to the player shows enough overlap is despawned (its slot
/// marked free, so it is skipped by the rest of this pass and by later
/// frames), and the player grows by the growth step for each candy eaten.
/// Returns how many were eaten, one collision sound each.
pub fn gameplay_player_candy_collision(w: &mut GameWorld) -> (eaten: usize)
    requires
        old(w).core_wf(),
        old(w).pos_ok(POS_SLACK_LIMIT as int),
    ensures
        final(w).core_wf(),
        final(w).pos_ok(POS_SLACK_LIMIT as int),
        *final(w) == (GameWorld { candies: final(w).candies, player: final(w).player, ..*old(w) }),
        final(w).player.pos == old(w).player.pos,
        final(w).player.scale == collide_scale_after(
            old(w).candies@,
            old(w).player.pos,
            old(w).player.scale as int,
            old(w).player_img.w_px as int,
            old(w).candy_img.w_px as int,
            old(w).candies@.len() as int,
        ),
        final(w).candies@.len() == old(w).candies@.len(),
        forall|i: int|
            0 <= i < old(w).candies@.len() ==> #[trigger] final(w).candies@[i] == (if collide_hit(
                old(w).candies@,
                old(w).player.pos,
                old(w).player.scale as int,
                old(w).player_img.w_px as int,
                old(w).candy_img.w_px as int,
                i,
            ) {
                Candy { alive: false, ..old(w).candies@[i] }
            } else {
                old(w).candies@[i]
            }),
        eaten == collide_count(
            old(w).candies@,
            old(w).player.pos,
            old(w).player.scale as int,
            old(w).player_img.w_px as int,
            old(w).candy_img.w_px as int,
            old(w).candies@.len() as int,
        ),
        final(w).live_candies() + eaten == old(w).live_candies(),
{
    let ppos: Vec2 = w.player.pos;
    let pimg: ImageSize = w.player_img;
    let cimg: ImageSize = w.candy_img;
    let ghost s0: Seq<Candy> = w.candies@;
    let ghost pscale0: int = w.player.scale as int;
    let n: usize = w.candies.len();
    let mut eaten: usize = 0;
    let mut i: usize = 0;
    while i < n
        invariant
            i <= n,
            n == w.candies@.len(),
            *w == (GameWorld { candies: w.candies, player: w.player, ..*old(w) }),
            old(w).core_wf(),
            old(w).pos_ok(POS_SLACK_LIMIT as int),
            ppos == old(w).player.pos,
            pimg == old(w).player_img,
            cimg == old(w).candy_img,
            s0 == old(w).candies@,
            pscale0 == old(w).player.scale as int,
            n == s0.len(),
            w.player.pos == ppos,
            0 < w.player.scale <= SCALE_LIMIT,
            w.player.scale == collide_scale_after(
                s0,
                ppos,
                pscale0,
                pimg.w_px as int,
                cimg.w_px as int,
                i as int,
            ),
            eaten <= i,
            eaten == collide_count(s0, ppos, pscale0, pimg.w_px as int, cimg.w_px as int, i as int),
            forall|j: int| i <= j < n ==> #[trigger] w.candies@[j] == s0[j],
            forall|j: int|
                0 <= j < i ==> #[trigger] w.candies@[j] == (if collide_hit(
                    s0,
                    ppos,
                    pscale0,
                    pimg.w_px as int,
                    cimg.w_px as int,
                    j,
                ) {
                    Candy { alive: false, ..s0[j] }
                } else {
                    s0[j]
                }),
            alive_count(w.candies@) + eaten == alive_count(s0),
        decreases n - i,
    {
        let c: Candy = w.candies[i];
        if c.alive {
            let d: i64 = dist_milli(ppos, c.pos);
            let half_p: i64 = half_extent(pimg.w_px, w.player.scale);
            let half_c: i64 = half_extent(cimg.w_px, c.scale);
            let adjusted: i64 = d - half_p - half_c;
            if adjusted <= COLLISION_OVERLAP {
                proof {
                    lemma_alive_count_update(w.candies@, i as int, Candy { alive: false, ..c });
                }
                w.candies[i] = Candy { alive: false, ..c };
                let ns: i64 = w.player.scale + GROWTH_STEP;
                w.player.scale = if ns > SCALE_LIMIT {
                    SCALE_LIMIT
                } else {
                    ns
                };
                eaten = eaten + 1;
            }
        }
        i = i + 1;
    }
    eaten
}

/// The round ends when no candy is left.
pub fn gameplay_await_zero_candy(w: &GameWorld) -> (next: Option<GameState>)
    ensures
        next == (if w.live_candies() == 0 {
            Some(GameState::End)
        } else {
            None::<GameState>
        }),
{
    let live = w.count_live_candies();
    if live < 1 {
        Some(GameState::End)
    } else {
        None
    }
}

} // verus!
