//! The phase state machine around gameplay: waiting on the title screens,
//! the scripted end and shrink sequences, the setup and teardown each
//! transition runs, and the per-frame driver that orders the systems.

use vstd::prelude::*;

use crate::gameplay::bounce_sound_count;
use crate::gameplay::bounced_candy_rel;
use crate::gameplay::collide_count;
use crate::gameplay::collide_hit;
use crate::gameplay::collide_scale_after;
use crate::gameplay::confined_rel;
use crate::gameplay::gameplay_await_zero_candy;
use crate::gameplay::gameplay_candy_movement;
use crate::gameplay::gameplay_confine_entity_movement;
use crate::gameplay::gameplay_exit_to_title;
use crate::gameplay::gameplay_player_candy_collision;
use crate::gameplay::gameplay_player_movement;
use crate::gameplay::gameplay_spawn_candy_timer;
use crate::gameplay::gameplay_update_candy_direction;
use crate::gameplay::grown_scale;
use crate::gameplay::moved_candy_rel;
use crate::gameplay::player_dir_x;
use crate::gameplay::player_dir_y;
use crate::gameplay::PlayerInput;
use crate::gameplay::spawn_candy;
use crate::gameplay::spawn_count_spec;
use crate::gameplay::spawned_candy_ok;
use crate::geom::dist_milli;
use crate::geom::dist_spec;
use crate::geom::lemma_unit_dir_bounds;
use crate::geom::norm_dir_x;
use crate::geom::norm_dir_y;
use crate::geom::norm_sq_u64;
use crate::geom::normalize_or_axis;
use crate::geom::POS_LIMIT;
use crate::geom::POS_SLACK_LIMIT;
use crate::geom::SCALE_LIMIT;
use crate::geom::SCALE_ONE;
use crate::geom::Vec2;
use crate::math::abs_i;
use crate::math::clamp_i64;
use crate::math::clamp_spec;
use crate::math::div_tz;
use crate::math::isqrt_u64;
use crate::math::mul_div_tz;
use crate::math::sqrt_floor;
use crate::world::alive_count;
use crate::world::Candy;
use crate::world::CandySpawnTimer;
use crate::world::DT_MAX_MS;
use crate::world::END_ARRIVE_DIST;
use crate::world::END_SPEED;
use crate::world::GameState;
use crate::world::GameWorld;
use crate::world::lemma_alive_count_le_len;
use crate::world::MAX_CANDY;
use crate::world::NUMBER_OF_INITIAL_CANDIES;
use crate::world::Player;
use crate::world::PLAYER_SPEED;
use crate::world::POOP_DURATION_MS;
use crate::world::PULSE_MAX_EXTRA;
use crate::world::SCALE_CLAMP_MAX;
use crate::world::SCALE_CLAMP_MIN;
use crate::world::ShrinkData;
use crate::world::TIME_LIMIT_MS;
use crate::world::timer_rem_after;
use crate::world::TitlePulseData;

verus! {

/// A mouse click on the boot screen brings up the title.
pub fn init_wait_for_input(mouse_clicked: bool) -> (next: Option<GameState>)
    ensures
        next == (if mouse_clicked {
            Some(GameState::Title)
        } else {
            None::<GameState>
        }),
{
    if mouse_clicked {
        Some(GameState::Title)
    } else {
        None
    }
}

/// The start key on the title screen begins a round.
pub fn title_wait_for_keypress(space_pressed: bool) -> (next: Option<GameState>)
    ensures
        next == (if space_pressed {
            Some(GameState::Playing)
        } else {
            None::<GameState>
        }),
{
    if space_pressed {
        Some(GameState::Playing)
    } else {
        None
    }
}

/// Entering the title: despawn every transient entity, park the player at
/// the origin at scale 1.0, and start the pulse animation now.
pub fn title_setup(w: &mut GameWorld)
    requires
        old(w).core_wf(),
    ensures
        final(w).wf(),
        *final(w) == (GameWorld {
            candies: final(w).candies,
            player: final(w).player,
            pulse: final(w).pulse,
            ..*old(w)
        }),
        final(w).candies@.len() == 0,
        final(w).live_candies() == 0,
        final(w).player.pos == (Vec2 { x: 0, y: 0 }),
        final(w).player.scale == SCALE_ONE,
        final(w).pulse == (TitlePulseData { start_time: old(w).now_ms }),
{
    w.candies.clear();
    w.player.pos = Vec2 { x: 0, y: 0 };
    w.player.scale = SCALE_ONE;
    w.pulse = TitlePulseData { start_time: w.now_ms };
}

/// The player's scale during the title pulse, from the magnitude of the
/// animation wave (in per-mille of full swing): 1.0 plus up to the pulse
/// amplitude.
pub open spec fn pulse_scale_spec(wave: int) -> int {
    1000 + wave * PULSE_MAX_EXTRA / 1000
}

/// Pulse the player's scale on the title screen. The wave magnitude is
/// handed in by the shell, which derives it from the elapsed time since
/// `pulse.start_time` and the music's tempo.
pub fn title_player_pulse(w: &mut GameWorld, wave: i64)
    requires
        old(w).core_wf(),
        0 <= wave <= 1000,
    ensures
        final(w).player.scale == pulse_scale_spec(wave as int),
        final(w).player.pos == old(w).player.pos,
        *final(w) == (GameWorld { player: final(w).player, ..*old(w) }),
        final(w).core_wf(),
        old(w).pos_ok(POS_LIMIT as int) ==> final(w).wf(),
{
    let p: i64 = wave * PULSE_MAX_EXTRA;
    let s: i64 = 1000 + ((p as u64) / 1000) as i64;
    w.player.scale = s;
}

/// Leaving gameplay: despawn every candy. The shell also stops the phase
/// music.
pub fn gameplay_teardown(w: &mut GameWorld)
    requires
        old(w).core_wf(),
    ensures
        final(w).core_wf(),
        *final(w) == (GameWorld { candies: final(w).candies, ..*old(w) }),
        final(w).candies@.len() == 0,
        final(w).live_candies() == 0,
        old(w).pos_ok(POS_LIMIT as int) ==> final(w).wf(),
{
    w.candies.clear();
}

/// Entering gameplay: the player keeps its position but restarts at scale
/// 1.0, and the initial candies spawn (never past the ceiling). The shell
/// starts the gameplay music.
pub fn gameplay_setup(w: &mut GameWorld)
    requires
        old(w).core_wf(),
    ensures
        final(w).core_wf(),
        *final(w) == (GameWorld { candies: final(w).candies, player: final(w).player, ..*old(w) }),
        final(w).player.pos == old(w).player.pos,
        final(w).player.scale == SCALE_ONE,
        final(w).live_candies() == (if old(w).live_candies() + NUMBER_OF_INITIAL_CANDIES
            <= MAX_CANDY {
            old(w).live_candies() + NUMBER_OF_INITIAL_CANDIES
        } else {
            MAX_CANDY as int
        }),
        forall|j: int|
            0 <= j < final(w).candies@.len() ==> (j < old(w).candies@.len() && final(w).candies@[j]
                == old(w).candies@[j]) || spawned_candy_ok(
                #[trigger] final(w).candies@[j],
                old(w).window,
            ),
        forall|j: int|
            0 <= j < old(w).candies@.len() && (#[trigger] old(w).candies@[j]).alive
                ==> final(w).candies@[j] == old(w).candies@[j],
        old(w).pos_ok(POS_LIMIT as int) ==> final(w).wf(),
        old(w).pos_ok(POS_SLACK_LIMIT as int) ==> final(w).pos_ok(POS_SLACK_LIMIT as int),
{
    w.player.scale = SCALE_ONE;
    proof {
        lemma_alive_count_le_len(w.candies@);
    }
    let mut k: usize = 0;
    while k < NUMBER_OF_INITIAL_CANDIES
        invariant
            k <= NUMBER_OF_INITIAL_CANDIES,
            w.core_wf(),
            *w == (GameWorld { candies: w.candies, player: w.player, ..*old(w) }),
            w.player.pos == old(w).player.pos,
            w.player.scale == SCALE_ONE,
            w.live_candies() == (if old(w).live_candies() + k <= MAX_CANDY {
                old(w).live_candies() + k
            } else {
                MAX_CANDY as int
            }),
            forall|j: int|
                0 <= j < w.candies@.len() ==> (j < old(w).candies@.len() && w.candies@[j] == old(
                    w,
                ).candies@[j]) || spawned_candy_ok(#[trigger] w.candies@[j], old(w).window),
            old(w).candies@.len() <= w.candies@.len(),
            forall|j: int|
                0 <= j < old(w).candies@.len() && (#[trigger] old(w).candies@[j]).alive
                    ==> w.candies@[j] == old(w).candies@[j],
            old(w).pos_ok(POS_LIMIT as int) ==> w.pos_ok(POS_LIMIT as int),
            old(w).pos_ok(POS_SLACK_LIMIT as int) ==> w.pos_ok(POS_SLACK_LIMIT as int),
        decreases NUMBER_OF_INITIAL_CANDIES - k,
    {
        let live: usize = w.count_live_candies();
        if live < MAX_CANDY {
            let ghost before = w.candies@;
            let idx: usize = spawn_candy(w);
            proof {
                assert forall|j: int|
                    0 <= j < old(w).candies@.len() && (#[trigger] old(w).candies@[j]).alive
                        implies w.candies@[j] == old(w).candies@[j] by {
                    assert(before[j] == old(w).candies@[j]);
                    assert(j != idx);
                }
            }
        }
        k = k + 1;
    }
}

/// One damping step of the end sequence's overshoot guard: nine tenths,
/// truncated toward zero.
pub open spec fn damp9(v: int) -> int {
    div_tz(9 * v, 10)
}

/// Damping never grows a component, and strictly shrinks a nonzero one.
pub proof fn lemma_damp9_shrinks(v: int)
    ensures
        abs_i(damp9(v)) <= abs_i(v),
        v != 0 ==> abs_i(damp9(v)) < abs_i(v),
{
    if v >= 1 {
        assert(0 <= (9 * v) / 10 < v) by (nonlinear_arith)
            requires
                v >= 1,
        ;
    } else if v <= -1 {
        assert(0 <= (9 * (-v)) / 10 < -v) by (nonlinear_arith)
            requires
                v <= -1,
        ;
    }
}

/// The per-frame delta of the end sequence after the overshoot guard:
/// damped by nine tenths until its magnitude no longer exceeds the
/// remaining distance to the center.
pub open spec fn damp_change(cx: int, cy: int, limit: int) -> (int, int)
    decreases abs_i(cx) + abs_i(cy),
        when limit >= 0
        via damp_change_decreases
{
    if sqrt_floor((cx * cx + cy * cy) as nat) <= limit {
        (cx, cy)
    } else {
        damp_change(damp9(cx), damp9(cy), limit)
    }
}

#[via_fn]
proof fn damp_change_decreases(cx: int, cy: int, limit: int) {
    if sqrt_floor((cx * cx + cy * cy) as nat) > limit {
        if cx == 0 && cy == 0 {
            assert(cx * cx + cy * cy == 0) by (nonlinear_arith)
                requires
                    cx == 0,
                    cy == 0,
            ;
        }
        lemma_damp9_shrinks(cx);
        lemma_damp9_shrinks(cy);
    }
}

/// Damp a change vector until its length does not exceed `limit`.
fn damp_to_limit(cx0: i64, cy0: i64, limit: i64) -> (r: (i64, i64))
    requires
        0 <= limit,
        abs_i(cx0 as int) <= 100_000_000,
        abs_i(cy0 as int) <= 100_000_000,
    ensures
        (r.0 as int, r.1 as int) == damp_change(cx0 as int, cy0 as int, limit as int),
        abs_i(r.0 as int) <= abs_i(cx0 as int),
        abs_i(r.1 as int) <= abs_i(cy0 as int),
{
    let mut cx: i64 = cx0;
    let mut cy: i64 = cy0;
    let s: u64 = norm_sq_u64(cx, cy);
    let mut len: i64 = isqrt_u64(s) as i64;
    while len > limit
        invariant
            0 <= limit,
            abs_i(cx as int) <= abs_i(cx0 as int) <= 100_000_000,
            abs_i(cy as int) <= abs_i(cy0 as int) <= 100_000_000,
            len == sqrt_floor((cx * cx + cy * cy) as nat),
            damp_change(cx as int, cy as int, limit as int) == damp_change(
                cx0 as int,
                cy0 as int,
                limit as int,
            ),
        decreases abs_i(cx as int) + abs_i(cy as int),
    {
        proof {
            lemma_damp9_shrinks(cx as int);
            lemma_damp9_shrinks(cy as int);
            if cx == 0 && cy == 0 {
                assert(cx * cx + cy * cy == 0) by (nonlinear_arith)
                    requires
                        cx == 0int,
                        cy == 0int,
                ;
            }
        }
        cx = mul_div_tz(9, cx, 10);
        cy = mul_div_tz(9, cy, 10);
        let s2: u64 = norm_sq_u64(cx, cy);
        len = isqrt_u64(s2) as i64;
    }
    (cx, cy)
}

/// Distance from an entity to the window center, in milli-units.
pub open spec fn end_dist(pos: Vec2) -> int {
    dist_spec(pos.x as int, pos.y as int, 0, 0)
}

/// The undamped per-frame delta of the end sequence: the unit vector
/// toward the center, scaled by the end speed and the frame delta.
pub open spec fn end_change_x0(pos: Vec2, dt: int) -> int {
    div_tz(norm_dir_x(-pos.x as int, -pos.y as int) * END_SPEED * dt, 1000)
}

pub open spec fn end_change_y0(pos: Vec2, dt: int) -> int {
    div_tz(norm_dir_y(-pos.x as int, -pos.y as int) * END_SPEED * dt, 1000)
}

/// Where the end sequence moves the player: the damped delta, with each
/// component further pinned so the player never crosses the center on that
/// axis.
pub open spec fn end_moved_x(pos: Vec2, dt: int) -> int {
    let c = damp_change(end_change_x0(pos, dt), end_change_y0(pos, dt), end_dist(pos));
    let capped = if pos.x >= 0 {
        clamp_spec(c.0, -pos.x as int, 0)
    } else {
        clamp_spec(c.0, 0, -pos.x as int)
    };
    pos.x + capped
}

pub open spec fn end_moved_y(pos: Vec2, dt: int) -> int {
    let c = damp_change(end_change_x0(pos, dt), end_change_y0(pos, dt), end_dist(pos));
    let capped = if pos.y >= 0 {
        clamp_spec(c.1, -pos.y as int, 0)
    } else {
        clamp_spec(c.1, 0, -pos.y as int)
    };
    pos.y + capped
}

/// One frame of the end sequence: once the player is within one unit of
/// the center the shrink sequence starts; otherwise the player translates
/// toward the center at the end speed, the delta damped and pinned so it
/// never overshoots the center.
pub fn end_sequence(w: &mut GameWorld, dt: i64) -> (next: Option<GameState>)
    requires
        old(w).wf(),
        0 <= dt <= DT_MAX_MS,
    ensures
        final(w).wf(),
        *final(w) == (GameWorld { player: final(w).player, ..*old(w) }),
        final(w).player.scale == old(w).player.scale,
        next == (if end_dist(old(w).player.pos) < END_ARRIVE_DIST {
            Some(GameState::Poop)
        } else {
            None::<GameState>
        }),
        end_dist(old(w).player.pos) < END_ARRIVE_DIST ==> final(w).player.pos == old(w).player.pos,
        end_dist(old(w).player.pos) >= END_ARRIVE_DIST ==> final(w).player.pos.x == end_moved_x(
            old(w).player.pos,
            dt as int,
        ) && final(w).player.pos.y == end_moved_y(old(w).player.pos, dt as int),
{
    let pos: Vec2 = w.player.pos;
    let d: i64 = dist_milli(pos, Vec2 { x: 0, y: 0 });
    if d < END_ARRIVE_DIST {
        return Some(GameState::Poop);
    }
    let u: Vec2 = normalize_or_axis(-pos.x, -pos.y);
    proof {
        lemma_unit_dir_bounds(u.x as int, u.y as int);
        let ux = u.x as int;
        let uy = u.y as int;
        assert(abs_i(ux * END_SPEED * dt) <= 100_000_000_000_000 && abs_i(uy * END_SPEED * dt)
            <= 100_000_000_000_000 && abs_i(ux * END_SPEED * dt) / 1000 <= 100_000_000 && abs_i(
            uy * END_SPEED * dt,
        ) / 1000 <= 100_000_000) by (nonlinear_arith)
            requires
                abs_i(ux) <= 1005,
                abs_i(uy) <= 1005,
                0 <= dt <= DT_MAX_MS,
        ;
        assert(abs_i(div_tz(ux * END_SPEED * dt, 1000)) <= abs_i(ux * END_SPEED * dt) / 1000);
        assert(abs_i(div_tz(uy * END_SPEED * dt, 1000)) <= abs_i(uy * END_SPEED * dt) / 1000);
    }
    let sx: i64 = u.x * END_SPEED;
    let sy: i64 = u.y * END_SPEED;
    let cx0: i64 = mul_div_tz(sx, dt, 1000);
    let cy0: i64 = mul_div_tz(sy, dt, 1000);
    let (cx, cy) = damp_to_limit(cx0, cy0, d);
    let capped_x: i64 = if pos.x >= 0 {
        clamp_i64(cx, -pos.x, 0)
    } else {
        clamp_i64(cx, 0, -pos.x)
    };
    let capped_y: i64 = if pos.y >= 0 {
        clamp_i64(cy, -pos.y, 0)
    } else {
        clamp_i64(cy, 0, -pos.y)
    };
    w.player.pos = Vec2 { x: pos.x + capped_x, y: pos.y + capped_y };
    None
}

/// Entering the shrink sequence: remember the scale the player reached and
/// start its clock. The shell plays the entry sound.
pub fn poop_setup(w: &mut GameWorld)
    requires
        old(w).core_wf(),
    ensures
        final(w).core_wf(),
        *final(w) == (GameWorld { shrink: final(w).shrink, ..*old(w) }),
        final(w).shrink == (ShrinkData { initial_scale_x: old(w).player.scale, total_time: 0 }),
        old(w).pos_ok(POS_LIMIT as int) ==> final(w).wf(),
{
    w.shrink = ShrinkData { initial_scale_x: w.player.scale, total_time: 0 };
}

/// The player's scale while shrinking: it loses, per second, half the
/// per-mille excess the shrink started with, pinned to the valid band so
/// it settles at 1.0 instead of crossing it.
pub open spec fn poop_scale_after(scale: int, initial: int, dt: int) -> int {
    clamp_spec(scale - div_tz((initial - 1000) * dt, 2000), 1000, SCALE_LIMIT as int)
}

/// One frame of the shrink sequence: scale decays toward 1.0 at the rate
/// fixed at entry, the clock accumulates, and once it has already passed
/// the duration the game returns to the title.
pub fn poop_sequence(w: &mut GameWorld, dt: i64) -> (next: Option<GameState>)
    requires
        old(w).core_wf(),
        0 <= dt <= DT_MAX_MS,
        old(w).shrink.total_time <= TIME_LIMIT_MS,
    ensures
        final(w).core_wf(),
        *final(w) == (GameWorld { player: final(w).player, shrink: final(w).shrink, ..*old(w) }),
        final(w).player.pos == old(w).player.pos,
        final(w).player.scale == poop_scale_after(
            old(w).player.scale as int,
            old(w).shrink.initial_scale_x as int,
            dt as int,
        ),
        final(w).shrink == (ShrinkData {
            initial_scale_x: old(w).shrink.initial_scale_x,
            total_time: (old(w).shrink.total_time + dt) as i64,
        }),
        next == (if old(w).shrink.total_time > POOP_DURATION_MS {
            Some(GameState::Title)
        } else {
            None::<GameState>
        }),
        old(w).pos_ok(POS_LIMIT as int) ==> final(w).wf(),
{
    proof {
        let ini = w.shrink.initial_scale_x as int;
        assert(abs_i((ini - 1000) * dt) <= 100_000_000_000_000) by (nonlinear_arith)
            requires
                0 <= ini <= SCALE_LIMIT,
                0 <= dt <= DT_MAX_MS,
        ;
    }
    let excess: i64 = w.shrink.initial_scale_x - 1000;
    let delta: i64 = mul_div_tz(excess, dt, 2000);
    let ns: i64 = w.player.scale - delta;
    w.player.scale = clamp_i64(ns, 1000, SCALE_LIMIT);
    let next: Option<GameState> = if w.shrink.total_time > POOP_DURATION_MS {
        Some(GameState::Title)
    } else {
        None
    };
    w.shrink.total_time = w.shrink.total_time + dt;
    next
}

/// Leaving the shrink sequence: despawn every transient entity.
pub fn poop_teardown(w: &mut GameWorld)
    requires
        old(w).core_wf(),
    ensures
        final(w).core_wf(),
        *final(w) == (GameWorld { candies: final(w).candies, ..*old(w) }),
        final(w).candies@.len() == 0,
        final(w).live_candies() == 0,
        old(w).pos_ok(POS_LIMIT as int) ==> final(w).wf(),
{
    w.candies.clear();
}

/// Everything the shell reads from the keyboard and mouse for one frame,
/// plus the title-pulse wave magnitude it derives from the music clock.
#[derive(Clone, Copy, PartialEq, Eq, Structural, Debug)]
pub struct FrameInput {
    pub mouse_clicked: bool,
    pub space_pressed: bool,
    pub escape_pressed: bool,
    pub enter_pressed: bool,
    pub left: bool,
    pub right: bool,
    pub up: bool,
    pub down: bool,
    pub grow: bool,
    pub manual_spawn: bool,
    pub pulse_wave: i64,
}

/// What the shell must render outwardly after a frame: bounce and eat
/// sounds to play, and the phase that was entered, if any (to switch music
/// and screens).
#[derive(Clone, Copy, PartialEq, Eq, Structural, Debug)]
pub struct FrameEvents {
    pub bounce_sounds: usize,
    pub candies_eaten: usize,
    pub entered: Option<GameState>,
}

/// The movement keys of a frame's input.
pub open spec fn frame_player_input(input: FrameInput) -> PlayerInput {
    PlayerInput {
        left: input.left,
        right: input.right,
        up: input.up,
        down: input.down,
        grow: input.grow,
    }
}

/// A frame's starting state: the previous world with the clock advanced.
pub open spec fn clocked(w: GameWorld, dt: int) -> GameWorld {
    GameWorld { now_ms: (w.now_ms + dt) as i64, ..w }
}

/// How the player-movement pass relates two worlds: exactly the contract
/// of `gameplay_player_movement`.
pub open spec fn player_moved_rel(w0: GameWorld, w1: GameWorld, input: PlayerInput, dt: int) -> bool {
    &&& w1.player.pos.x == w0.player.pos.x + player_dir_x(input) * PLAYER_SPEED * dt
    &&& w1.player.pos.y == w0.player.pos.y + player_dir_y(input) * PLAYER_SPEED * dt
    &&& w1.player.scale == grown_scale(w0.player.scale as int, input.grow)
    &&& w1 == (GameWorld { player: w1.player, ..w0 })
}

/// How the candy-movement pass relates two worlds: exactly the contract of
/// `gameplay_candy_movement`.
pub open spec fn candies_moved_rel(w0: GameWorld, w1: GameWorld, dt: int) -> bool {
    &&& w1 == (GameWorld { candies: w1.candies, ..w0 })
    &&& w1.candies@.len() == w0.candies@.len()
    &&& forall|i: int|
        0 <= i < w0.candies@.len() ==> moved_candy_rel(
            w0.candies@[i],
            #[trigger] w1.candies@[i],
            w0.player.pos,
            dt,
        )
}

/// How the spawner pass relates two worlds: exactly the contract of
/// `gameplay_spawn_candy_timer`.
pub open spec fn spawner_rel(w0: GameWorld, w1: GameWorld, dt: int, manual: bool) -> bool {
    &&& w1 == (GameWorld { candies: w1.candies, spawn_timer: w1.spawn_timer, ..w0 })
    &&& alive_count(w1.candies@) == alive_count(w0.candies@) + spawn_count_spec(
        alive_count(w0.candies@),
        w0.spawn_timer.remaining_ms as int,
        dt,
        manual,
    )
    &&& w1.spawn_timer == (if alive_count(w0.candies@) >= MAX_CANDY {
        w0.spawn_timer
    } else {
        CandySpawnTimer {
            remaining_ms: timer_rem_after(
                w0.spawn_timer.remaining_ms as int,
                w0.spawn_timer.period_ms as int,
                dt,
            ) as i64,
            period_ms: w0.spawn_timer.period_ms,
        }
    })
    &&& w0.candies@.len() <= w1.candies@.len() <= w0.candies@.len() + 2
    &&& forall|j: int|
        0 <= j < w0.candies@.len() && (#[trigger] w0.candies@[j]).alive ==> w1.candies@[j]
            == w0.candies@[j]
    &&& forall|j: int|
        0 <= j < w1.candies@.len() ==> w1.candies@[j] == w0.candies@[j] || spawned_candy_ok(
            #[trigger] w1.candies@[j],
            w0.window,
        )
}

/// How the direction-update pass relates two worlds: exactly the contract
/// of `gameplay_update_candy_direction`.
pub open spec fn bounced_rel(w0: GameWorld, w1: GameWorld) -> bool {
    &&& w1 == (GameWorld { candies: w1.candies, ..w0 })
    &&& w1.candies@.len() == w0.candies@.len()
    &&& forall|i: int|
        0 <= i < w0.candies@.len() ==> bounced_candy_rel(
            w0.candies@[i],
            #[trigger] w1.candies@[i],
            w0.window,
            w0.candy_img,
            w0.now_ms as int,
        )
}

/// The bounce sounds one direction-update pass plays on a world.
pub open spec fn bounce_sounds_of(w: GameWorld) -> nat {
    bounce_sound_count(w.candies@, w.window, w.candy_img, w.now_ms as int, w.candies@.len() as int)
}

/// How the collision pass relates two worlds: exactly the contract of
/// `gameplay_player_candy_collision`.
pub open spec fn collided_rel(w0: GameWorld, w1: GameWorld) -> bool {
    &&& w1 == (GameWorld { candies: w1.candies, player: w1.player, ..w0 })
    &&& w1.player.pos == w0.player.pos
    &&& w1.player.scale == collide_scale_after(
        w0.candies@,
        w0.player.pos,
        w0.player.scale as int,
        w0.player_img.w_px as int,
        w0.candy_img.w_px as int,
        w0.candies@.len() as int,
    )
    &&& w1.candies@.len() == w0.candies@.len()
    &&& forall|i: int|
        0 <= i < w0.candies@.len() ==> #[trigger] w1.candies@[i] == (if collide_hit(
            w0.candies@,
            w0.player.pos,
            w0.player.scale as int,
            w0.player_img.w_px as int,
            w0.candy_img.w_px as int,
            i,
        ) {
            Candy { alive: false, ..w0.candies@[i] }
        } else {
            w0.candies@[i]
        })
}

/// The candies one collision pass eats on a world.
pub open spec fn collide_eaten_of(w: GameWorld) -> nat {
    collide_count(
        w.candies@,
        w.player.pos,
        w.player.scale as int,
        w.player_img.w_px as int,
        w.candy_img.w_px as int,
        w.candies@.len() as int,
    )
}

/// How the confinement clamp relates two worlds: exactly the contract of
/// `gameplay_confine_entity_movement`.
pub open spec fn confined_world_rel(w0: GameWorld, w1: GameWorld) -> bool {
    &&& w1 == (GameWorld { candies: w1.candies, player: w1.player, ..w0 })
    &&& confined_rel(
        w0.player.pos,
        w0.player.scale as int,
        w1.player.pos,
        w1.player.scale as int,
        w0.window,
        w0.player_img,
    )
    &&& w1.candies@.len() == w0.candies@.len()
    &&& forall|i: int|
        0 <= i < w0.candies@.len() ==> (if w0.candies@[i].alive {
            confined_rel(
                w0.candies@[i].pos,
                w0.candies@[i].scale as int,
                (#[trigger] w1.candies@[i]).pos,
                w1.candies@[i].scale as int,
                w0.window,
                w0.candy_img,
            ) && w1.candies@[i] == (Candy {
                pos: w1.candies@[i].pos,
                scale: w1.candies@[i].scale,
                ..w0.candies@[i]
            })
        } else {
            w1.candies@[i] == w0.candies@[i]
        })
}

/// The six gameplay passes of one Playing frame in their fixed order —
/// player movement, candy movement with attraction, the spawner, wall
/// bounces, collisions, the confinement clamp — from `start` through the
/// intermediate worlds to `end`, the state before any phase transition.
/// `bounces` and `eaten` are the sound counts those passes report.
pub open spec fn playing_frame_chain(
    start: GameWorld,
    w1: GameWorld,
    w2: GameWorld,
    w3: GameWorld,
    w4: GameWorld,
    w5: GameWorld,
    end: GameWorld,
    input: FrameInput,
    dt: int,
    bounces: nat,
    eaten: nat,
) -> bool {
    &&& player_moved_rel(start, w1, frame_player_input(input), dt)
    &&& candies_moved_rel(w1, w2, dt)
    &&& spawner_rel(w2, w3, dt, input.manual_spawn)
    &&& bounced_rel(w3, w4)
    &&& bounces == bounce_sounds_of(w3)
    &&& collided_rel(w4, w5)
    &&& eaten == collide_eaten_of(w4)
    &&& confined_world_rel(w5, end)
}

/// One Playing frame's systems relate `start` to `end` through some chain
/// of intermediate worlds, with `bounces` and `eaten` the frame's sound
/// counts.
pub open spec fn playing_frame_rel(
    start: GameWorld,
    end: GameWorld,
    input: FrameInput,
    dt: int,
    bounces: nat,
    eaten: nat,
) -> bool {
    exists|w1: GameWorld, w2: GameWorld, w3: GameWorld, w4: GameWorld, w5: GameWorld|
        playing_frame_chain(start, w1, w2, w3, w4, w5, end, input, dt, bounces, eaten)
}

/// The transition one frame requests, decided from the state at the start
/// of the frame: a click leaves the boot screen, the start key begins a
/// round, the skip key (first) or an empty arena ends one, escape cancels
/// to the title, arrival at the center starts the shrink sequence, and the
/// elapsed shrink duration returns to the title.
pub open spec fn requested_transition(w: GameWorld, input: FrameInput) -> Option<GameState> {
    match w.phase {
        GameState::Init => if input.mouse_clicked {
            Some(GameState::Title)
        } else {
            None
        },
        GameState::Title => if input.space_pressed {
            Some(GameState::Playing)
        } else {
            None
        },
        GameState::Playing => if input.enter_pressed {
            Some(GameState::End)
        } else if input.escape_pressed {
            Some(GameState::Title)
        } else if alive_count(w.candies@) == 0 {
            Some(GameState::End)
        } else {
            None
        },
        GameState::End => if end_dist(w.player.pos) < END_ARRIVE_DIST {
            Some(GameState::Poop)
        } else {
            None
        },
        GameState::Poop => if w.shrink.total_time > POOP_DURATION_MS {
            Some(GameState::Title)
        } else {
            None
        },
    }
}

/// One frame of the whole game: advance the clock, run the current phase's
/// systems in their fixed order (movement, then spawning and direction
/// updates, then collisions, then the confinement clamp), and finally
/// apply the requested phase transition with its teardown and setup.
pub fn advance_frame(w: &mut GameWorld, input: FrameInput, dt: i64) -> (ev: FrameEvents)
    requires
        old(w).wf(),
        0 <= dt <= DT_MAX_MS,
        old(w).now_ms + dt <= TIME_LIMIT_MS,
        0 <= input.pulse_wave <= 1000,
        old(w).phase == GameState::Poop ==> old(w).shrink.total_time <= TIME_LIMIT_MS,
    ensures
        final(w).wf(),
        final(w).now_ms == old(w).now_ms + dt,
        ev.entered == requested_transition(*old(w), input),
        final(w).phase == (match requested_transition(*old(w), input) {
            Some(p) => p,
            None => old(w).phase,
        }),
        final(w).live_candies() <= MAX_CANDY,
        ev.entered == Some(GameState::Title) ==> (final(w).live_candies() == 0
            && final(w).player.pos == (Vec2 { x: 0, y: 0 }) && final(w).player.scale == SCALE_ONE
            && final(w).pulse == (TitlePulseData { start_time: (old(w).now_ms + dt) as i64 })),
        ev.entered == Some(GameState::Playing) ==> final(w).player.scale == SCALE_ONE,
        ev.entered == Some(GameState::End) ==> final(w).live_candies() == 0,
        ev.entered == Some(GameState::Poop) ==> final(w).shrink.total_time == 0,
        old(w).phase == GameState::Playing && ev.entered.is_none() ==> SCALE_CLAMP_MIN
            <= final(w).player.scale <= SCALE_CLAMP_MAX,
        old(w).phase != GameState::Playing ==> ev.bounce_sounds == 0 && ev.candies_eaten == 0,
        old(w).phase == GameState::Init && ev.entered.is_none() ==> *final(w) == clocked(
            *old(w),
            dt as int,
        ),
        old(w).phase == GameState::Init && ev.entered.is_some() ==> (*final(w) == (GameWorld {
            candies: final(w).candies,
            player: Player { pos: Vec2 { x: 0, y: 0 }, scale: SCALE_ONE },
            pulse: TitlePulseData { start_time: (old(w).now_ms + dt) as i64 },
            phase: GameState::Title,
            ..clocked(*old(w), dt as int)
        }) && final(w).candies@.len() == 0),
        old(w).phase == GameState::Title && ev.entered.is_none() ==> *final(w) == (GameWorld {
            player: Player {
                pos: old(w).player.pos,
                scale: pulse_scale_spec(input.pulse_wave as int) as i64,
            },
            ..clocked(*old(w), dt as int)
        }),
        old(w).phase == GameState::Title && ev.entered.is_some() ==> (*final(w) == (GameWorld {
            candies: final(w).candies,
            player: Player { pos: old(w).player.pos, scale: SCALE_ONE },
            phase: GameState::Playing,
            ..clocked(*old(w), dt as int)
        }) && final(w).live_candies() == (if old(w).live_candies() + NUMBER_OF_INITIAL_CANDIES
            <= MAX_CANDY {
            old(w).live_candies() + NUMBER_OF_INITIAL_CANDIES
        } else {
            MAX_CANDY as int
        })),
        old(w).phase == GameState::Playing ==> (exists|mid: GameWorld|
            {
                &&& #[trigger] playing_frame_rel(
                    clocked(*old(w), dt as int),
                    mid,
                    input,
                    dt as int,
                    ev.bounce_sounds as nat,
                    ev.candies_eaten as nat,
                )
                &&& (ev.entered.is_none() ==> *final(w) == mid)
                &&& (ev.entered == Some(GameState::End) ==> (*final(w) == (GameWorld {
                    candies: final(w).candies,
                    phase: GameState::End,
                    ..mid
                }) && final(w).candies@.len() == 0))
                &&& (ev.entered == Some(GameState::Title) ==> (*final(w) == (GameWorld {
                    candies: final(w).candies,
                    player: Player { pos: Vec2 { x: 0, y: 0 }, scale: SCALE_ONE },
                    pulse: TitlePulseData { start_time: (old(w).now_ms + dt) as i64 },
                    phase: GameState::Title,
                    ..mid
                }) && final(w).candies@.len() == 0))
            }),
        old(w).phase == GameState::End && ev.entered.is_none() ==> *final(w) == (GameWorld {
            player: Player {
                pos: Vec2 {
                    x: end_moved_x(old(w).player.pos, dt as int) as i64,
                    y: end_moved_y(old(w).player.pos, dt as int) as i64,
                },
                scale: old(w).player.scale,
            },
            ..clocked(*old(w), dt as int)
        }),
        old(w).phase == GameState::End && ev.entered.is_some() ==> *final(w) == (GameWorld {
            shrink: ShrinkData { initial_scale_x: old(w).player.scale, total_time: 0 },
            phase: GameState::Poop,
            ..clocked(*old(w), dt as int)
        }),
        old(w).phase == GameState::Poop && ev.entered.is_none() ==> *final(w) == (GameWorld {
            player: Player {
                pos: old(w).player.pos,
                scale: poop_scale_after(
                    old(w).player.scale as int,
                    old(w).shrink.initial_scale_x as int,
                    dt as int,
                ) as i64,
            },
            shrink: ShrinkData {
                initial_scale_x: old(w).shrink.initial_scale_x,
                total_time: (old(w).shrink.total_time + dt) as i64,
            },
            ..clocked(*old(w), dt as int)
        }),
        old(w).phase == GameState::Poop && ev.entered.is_some() ==> (*final(w) == (GameWorld {
            candies: final(w).candies,
            player: Player { pos: Vec2 { x: 0, y: 0 }, scale: SCALE_ONE },
            pulse: TitlePulseData { start_time: (old(w).now_ms + dt) as i64 },
            shrink: ShrinkData {
                initial_scale_x: old(w).shrink.initial_scale_x,
                total_time: (old(w).shrink.total_time + dt) as i64,
            },
            phase: GameState::Title,
            ..clocked(*old(w), dt as int)
        }) && final(w).candies@.len() == 0),
{
    w.now_ms = w.now_ms + dt;
    let ghost start: GameWorld = *w;
    proof {
        assert(start == clocked(*old(w), dt as int));
    }
    let mut bounce_sounds: usize = 0;
    let mut candies_eaten: usize = 0;
    let ghost mut mid: GameWorld = *w;
    let next: Option<GameState> = match w.phase {
        GameState::Init => init_wait_for_input(input.mouse_clicked),
        GameState::Title => {
            title_player_pulse(w, input.pulse_wave);
            proof {
                mid = *w;
            }
            title_wait_for_keypress(input.space_pressed)
        },
        GameState::Playing => {
            let chosen_by_key: Option<GameState> = gameplay_exit_to_title(
                input.escape_pressed,
                input.enter_pressed,
            );
            let chosen_by_arena: Option<GameState> = gameplay_await_zero_candy(w);
            let chosen: Option<GameState> = if chosen_by_key.is_some() {
                chosen_by_key
            } else {
                chosen_by_arena
            };
            let pinput = PlayerInput {
                left: input.left,
                right: input.right,
                up: input.up,
                down: input.down,
                grow: input.grow,
            };
            gameplay_player_movement(w, pinput, dt);
            let ghost g1: GameWorld = *w;
            gameplay_candy_movement(w, dt);
            let ghost g2: GameWorld = *w;
            gameplay_spawn_candy_timer(w, dt, input.manual_spawn);
            let ghost g3: GameWorld = *w;
            bounce_sounds = gameplay_update_candy_direction(w);
            let ghost g4: GameWorld = *w;
            candies_eaten = gameplay_player_candy_collision(w);
            let ghost g5: GameWorld = *w;
            gameplay_confine_entity_movement(w);
            proof {
                mid = *w;
                assert(pinput == frame_player_input(input));
                assert(playing_frame_chain(
                    start,
                    g1,
                    g2,
                    g3,
                    g4,
                    g5,
                    mid,
                    input,
                    dt as int,
                    bounce_sounds as nat,
                    candies_eaten as nat,
                ));
                assert(playing_frame_rel(
                    start,
                    mid,
                    input,
                    dt as int,
                    bounce_sounds as nat,
                    candies_eaten as nat,
                ));
            }
            chosen
        },
        GameState::End => {
            let next_end: Option<GameState> = end_sequence(w, dt);
            proof {
                mid = *w;
            }
            next_end
        },
        GameState::Poop => {
            let next_poop: Option<GameState> = poop_sequence(w, dt);
            proof {
                mid = *w;
            }
            next_poop
        },
    };
    proof {
        lemma_alive_count_le_len(w.candies@);
    }
    let entered: Option<GameState> = match next {
        Some(p) => {
            match w.phase {
                GameState::Playing => gameplay_teardown(w),
                GameState::Poop => poop_teardown(w),
                _ => (),
            }
            w.phase = p;
            match p {
                GameState::Title => title_setup(w),
                GameState::Playing => gameplay_setup(w),
                GameState::Poop => poop_setup(w),
                _ => (),
            }
            Some(p)
        },
        None => None,
    };
    let ev = FrameEvents { bounce_sounds, candies_eaten, entered };
    proof {
        lemma_alive_count_le_len(w.candies@);
        if old(w).phase == GameState::Playing {
            assert(playing_frame_rel(
                clocked(*old(w), dt as int),
                mid,
                input,
                dt as int,
                ev.bounce_sounds as nat,
                ev.candies_eaten as nat,
            ));
            if entered.is_none() {
                assert(*w == mid);
            }
            if entered == Some(GameState::End) {
                assert(*w == (GameWorld { candies: w.candies, phase: GameState::End, ..mid }));
                assert(w.candies@.len() == 0);
            }
            if entered == Some(GameState::Title) {
                assert(*w == (GameWorld {
                    candies: w.candies,
                    player: Player { pos: Vec2 { x: 0, y: 0 }, scale: SCALE_ONE },
                    pulse: TitlePulseData { start_time: (old(w).now_ms + dt) as i64 },
                    phase: GameState::Title,
                    ..mid
                }));
                assert(w.candies@.len() == 0);
            }
            assert(exists|m: GameWorld|
                {
                    &&& #[trigger] playing_frame_rel(
                        clocked(*old(w), dt as int),
                        m,
                        input,
                        dt as int,
                        ev.bounce_sounds as nat,
                        ev.candies_eaten as nat,
                    )
                    &&& (ev.entered.is_none() ==> *w == m)
                    &&& (ev.entered == Some(GameState::End) ==> (*w == (GameWorld {
                        candies: w.candies,
                        phase: GameState::End,
                        ..m
                    }) && w.candies@.len() == 0))
                    &&& (ev.entered == Some(GameState::Title) ==> (*w == (GameWorld {
                        candies: w.candies,
                        player: Player { pos: Vec2 { x: 0, y: 0 }, scale: SCALE_ONE },
                        pulse: TitlePulseData { start_time: (old(w).now_ms + dt) as i64 },
                        phase: GameState::Title,
                        ..m
                    }) && w.candies@.len() == 0))
                });
        }
    }
    ev
}

} // verus!
