//! The simulation state: game phases, the player, the candy arena, timers,
//! and the well-formedness invariants that every per-frame system preserves.

use vstd::prelude::*;

use crate::geom::ImageSize;
use crate::geom::IMG_PX_MAX;
use crate::geom::is_unit_dir;
use crate::geom::POS_LIMIT;
use crate::geom::POS_SLACK_LIMIT;
use crate::geom::SCALE_LIMIT;
use crate::geom::SCALE_ONE;
use crate::geom::Vec2;
use crate::geom::WINDOW_PX_MAX;
use crate::geom::WindowSize;
use crate::math::abs_i;
use crate::rng::random_below;

verus! {

/// World units the player moves per second.
pub const PLAYER_SPEED: i64 = 600;

/// World units a candy moves per second along its direction.
pub const CANDY_SPEED: i64 = 250;

/// Period of the repeating candy spawn timer.
pub const CANDY_SPAWN_TIMER_MS: i64 = 660;

/// Candies spawned when gameplay starts.
pub const NUMBER_OF_INITIAL_CANDIES: usize = 3;

/// Ceiling on the number of live candies; the spawner is a no-op at it.
pub const MAX_CANDY: usize = 100;

/// Candies closer to the player than this are pulled toward it
/// (milli-units).
pub const ATTRACT_RADIUS: i64 = 200_000;

/// Floor on the distance used in the attraction force, to avoid a
/// singularity (milli-units).
pub const ATTRACT_MIN_DIST: i64 = 25_000;

/// The attraction force is `ATTRACT_BASE - distance`, in milli-units per
/// second.
pub const ATTRACT_BASE: i64 = 400_000;

/// A bounce plays a sound only when this long has passed since the candy
/// last changed direction.
pub const BOUNCE_DEBOUNCE_MS: i64 = 100;

/// A candy is eaten when the center distance, less both half-extents,
/// drops to this or below (milli-units: an overlap of 20 units).
pub const COLLISION_OVERLAP: i64 = -20_000;

/// Per-mille scale the player gains for each candy eaten. The canonical
/// growth increment is 0.03 per candy.
pub const GROWTH_STEP: i64 = 30;

/// The confinement clamp keeps scale factors in `[SCALE_CLAMP_MIN,
/// SCALE_CLAMP_MAX]` (1.0 to 6.0).
pub const SCALE_CLAMP_MIN: i64 = 1000;

pub const SCALE_CLAMP_MAX: i64 = 6000;

/// World units per second the player moves toward the center during the
/// end sequence.
pub const END_SPEED: i64 = 400;

/// The end sequence finishes when the player is within one world unit of
/// the center (milli-units).
pub const END_ARRIVE_DIST: i64 = 1000;

/// Length of the shrinking sequence after the end sequence.
pub const POOP_DURATION_MS: i64 = 2000;

/// Largest extra scale the title pulse adds, in per-mille (1.5).
pub const PULSE_MAX_EXTRA: i64 = 1500;

/// Largest frame delta a single update accepts (one minute).
pub const DT_MAX_MS: i64 = 60_000;

/// Horizon on timestamps, for overflow headroom (about 31 years).
pub const TIME_LIMIT_MS: i64 = 1_000_000_000_000;

/// The game's top-level finite state machine.
#[derive(Clone, Copy, PartialEq, Eq, Structural, Debug)]
pub enum GameState {
    Init,
    Title,
    Playing,
    End,
    Poop,
}

impl Default for GameState {
    /// The game starts in `Init`.
    fn default() -> (r: Self)
        ensures
            r == GameState::Init,
    {
        GameState::Init
    }
}

/// The player: a position in milli-units and a uniform per-mille scale.
/// Exactly one player exists for the whole session, held as a direct field
/// of the world.
#[derive(Clone, Copy, PartialEq, Eq, Structural, Debug)]
pub struct Player {
    pub pos: Vec2,
    pub scale: i64,
}

/// A collectible candy: a slot of the arena. Despawning marks the slot
/// free (`alive == false`) rather than removing it, so earlier indices
/// stay stable within a frame pass.
#[derive(Clone, Copy, PartialEq, Eq, Structural, Debug)]
pub struct Candy {
    pub pos: Vec2,
    /// Unit direction of travel, in per-mille.
    pub direction: Vec2,
    /// When the candy last changed direction, in milliseconds.
    pub timestamp_changed_direction: i64,
    pub scale: i64,
    pub alive: bool,
}

/// The repeating countdown that paces candy spawning.
#[derive(Clone, Copy, PartialEq, Eq, Structural, Debug)]
pub struct CandySpawnTimer {
    pub remaining_ms: i64,
    pub period_ms: i64,
}

/// What remains of a repeating countdown after `dt` elapses: it counts
/// down, and on running out reloads from the period as often as needed.
pub open spec fn timer_rem_after(rem: int, period: int, dt: int) -> int {
    if dt < rem {
        rem - dt
    } else {
        period - ((dt - rem) % period)
    }
}

impl CandySpawnTimer {
    pub open spec fn wf(self) -> bool {
        0 < self.remaining_ms <= self.period_ms <= 1_000_000_000
    }

    /// Advance the countdown by `dt`; reports whether it ran out (and
    /// reloaded) during this frame.
    pub fn tick(&mut self, dt: i64) -> (finished: bool)
        requires
            old(self).wf(),
            0 <= dt <= DT_MAX_MS,
        ensures
            final(self).wf(),
            final(self).period_ms == old(self).period_ms,
            finished == (dt >= old(self).remaining_ms),
            final(self).remaining_ms == timer_rem_after(
                old(self).remaining_ms as int,
                old(self).period_ms as int,
                dt as int,
            ),
    {
        if dt < self.remaining_ms {
            self.remaining_ms = self.remaining_ms - dt;
            false
        } else {
            let over: u64 = (dt - self.remaining_ms) as u64;
            let m: u64 = over % (self.period_ms as u64);
            self.remaining_ms = self.period_ms - (m as i64);
            true
        }
    }
}

/// State of the shrinking sequence: the scale at entry and the time spent
/// so far.
#[derive(Clone, Copy, PartialEq, Eq, Structural, Debug)]
pub struct ShrinkData {
    pub initial_scale_x: i64,
    pub total_time: i64,
}

/// When the title screen's pulsing animation started.
#[derive(Clone, Copy, PartialEq, Eq, Structural, Debug)]
pub struct TitlePulseData {
    pub start_time: i64,
}

/// How many distinct bounce sounds exist; one is picked at random for each
/// audible bounce.
#[derive(Clone, Copy, PartialEq, Eq, Structural, Debug)]
pub struct CandyChangeDirectionSound {
    pub sound_count: usize,
}

impl CandyChangeDirectionSound {
    /// Pick one of the sounds at random.
    pub fn select_random(&self) -> (i: usize)
        requires
            self.sound_count > 0,
        ensures
            i < self.sound_count,
    {
        random_below(self.sound_count as u64) as usize
    }
}

/// Number of live candies in the arena.
pub open spec fn alive_count(s: Seq<Candy>) -> nat
    decreases s.len(),
{
    if s.len() == 0 {
        0
    } else {
        alive_count(s.drop_last()) + if s.last().alive {
            1nat
        } else {
            0nat
        }
    }
}

pub proof fn lemma_alive_count_le_len(s: Seq<Candy>)
    ensures
        alive_count(s) <= s.len(),
    decreases s.len(),
{
    if s.len() > 0 {
        lemma_alive_count_le_len(s.drop_last());
    }
}

/// Law: in any well-formed world the candy count never exceeds the
/// configured ceiling.
pub proof fn lemma_live_candies_at_most_ceiling(w: GameWorld)
    requires
        w.core_wf(),
    ensures
        w.live_candies() <= MAX_CANDY,
{
    lemma_alive_count_le_len(w.candies@);
}

/// Counting one more prefix element adds that element's liveness.
pub proof fn lemma_alive_count_take_step(s: Seq<Candy>, i: int)
    requires
        0 <= i < s.len(),
    ensures
        alive_count(s.take(i + 1)) == alive_count(s.take(i)) + if s[i].alive {
            1nat
        } else {
            0nat
        },
{
    assert(s.take(i + 1).drop_last() =~= s.take(i));
    assert(s.take(i + 1).last() == s[i]);
}

pub proof fn lemma_alive_count_whole(s: Seq<Candy>)
    ensures
        alive_count(s.take(s.len() as int)) == alive_count(s),
{
    assert(s.take(s.len() as int) =~= s);
}

/// Replacing one slot changes the live count by the difference of the old
/// and new liveness.
pub proof fn lemma_alive_count_update(s: Seq<Candy>, i: int, c: Candy)
    requires
        0 <= i < s.len(),
    ensures
        alive_count(s.update(i, c)) + if s[i].alive {
            1nat
        } else {
            0nat
        } == alive_count(s) + if c.alive {
            1nat
        } else {
            0nat
        },
    decreases s.len(),
{
    let t = s.update(i, c);
    if i == s.len() - 1 {
        assert(t.drop_last() =~= s.drop_last());
        assert(t.last() == c);
    } else {
        assert(t.drop_last() =~= s.drop_last().update(i, c));
        assert(t.last() == s.last());
        lemma_alive_count_update(s.drop_last(), i, c);
    }
}

/// Two arenas with the same liveness pattern hold the same number of live
/// candies.
pub proof fn lemma_alive_count_pointwise(s: Seq<Candy>, t: Seq<Candy>)
    requires
        s.len() == t.len(),
        forall|i: int| 0 <= i < s.len() ==> (#[trigger] s[i]).alive == (#[trigger] t[i]).alive,
    ensures
        alive_count(s) == alive_count(t),
    decreases s.len(),
{
    if s.len() > 0 {
        lemma_alive_count_pointwise(s.drop_last(), t.drop_last());
    }
}

/// When every slot is live the count is the length.
pub proof fn lemma_alive_count_full(s: Seq<Candy>)
    requires
        forall|i: int| 0 <= i < s.len() ==> (#[trigger] s[i]).alive,
    ensures
        alive_count(s) == s.len(),
    decreases s.len(),
{
    if s.len() > 0 {
        lemma_alive_count_full(s.drop_last());
    }
}

/// Appending a slot adds its liveness to the count.
pub proof fn lemma_alive_count_push(s: Seq<Candy>, c: Candy)
    ensures
        alive_count(s.push(c)) == alive_count(s) + if c.alive {
            1nat
        } else {
            0nat
        },
{
    assert(s.push(c).drop_last() =~= s);
    assert(s.push(c).last() == c);
}

/// Invariants on a candy that every system keeps: unit direction, scale in
/// the clamp band, timestamp within the horizon.
pub open spec fn candy_core_wf(c: Candy) -> bool {
    &&& is_unit_dir(c.direction.x as int, c.direction.y as int)
    &&& SCALE_CLAMP_MIN <= c.scale <= SCALE_CLAMP_MAX
    &&& 0 <= c.timestamp_changed_direction <= TIME_LIMIT_MS
}

/// The whole simulation state, owned by one top-level context and mutated
/// only by the per-frame update pass.
#[derive(Debug)]
pub struct GameWorld {
    pub phase: GameState,
    pub player: Player,
    pub candies: Vec<Candy>,
    pub spawn_timer: CandySpawnTimer,
    pub shrink: ShrinkData,
    pub pulse: TitlePulseData,
    pub window: WindowSize,
    pub player_img: ImageSize,
    pub candy_img: ImageSize,
    /// Elapsed session time in milliseconds.
    pub now_ms: i64,
}

impl GameWorld {
    /// Fixed configuration: a sane window and sprites that fit in it even
    /// at the largest clamped scale.
    pub open spec fn config_wf(self) -> bool {
        &&& 1 <= self.window.w_px <= WINDOW_PX_MAX
        &&& 1 <= self.window.h_px <= WINDOW_PX_MAX
        &&& 1 <= self.player_img.w_px <= IMG_PX_MAX
        &&& 1 <= self.player_img.h_px <= IMG_PX_MAX
        &&& 1 <= self.candy_img.w_px <= IMG_PX_MAX
        &&& 1 <= self.candy_img.h_px <= IMG_PX_MAX
        &&& self.player_img.w_px * 6 <= self.window.w_px
        &&& self.player_img.h_px * 6 <= self.window.h_px
        &&& self.candy_img.w_px * 6 <= self.window.w_px
        &&& self.candy_img.h_px * 6 <= self.window.h_px
    }

    /// Invariants that hold at every point of a frame, positions aside.
    pub open spec fn core_wf(self) -> bool {
        &&& self.config_wf()
        &&& self.spawn_timer.wf()
        &&& self.candies@.len() <= MAX_CANDY
        &&& forall|i: int| 0 <= i < self.candies@.len() ==> candy_core_wf(#[trigger] self.candies@[i])
        &&& 0 < self.player.scale <= SCALE_LIMIT
        &&& 0 <= self.now_ms <= TIME_LIMIT_MS
        &&& 0 <= self.pulse.start_time <= TIME_LIMIT_MS
        &&& 0 <= self.shrink.initial_scale_x <= SCALE_LIMIT
        &&& 0 <= self.shrink.total_time
    }

    /// The player and every live candy sit within `bound` milli-units of
    /// the origin on each axis. A free slot's stale data is not bounded:
    /// despawning marks the slot free without touching it.
    pub open spec fn pos_ok(self, bound: int) -> bool {
        &&& abs_i(self.player.pos.x as int) <= bound
        &&& abs_i(self.player.pos.y as int) <= bound
        &&& forall|i: int|
            0 <= i < self.candies@.len() && (#[trigger] self.candies@[i]).alive ==> abs_i(
                self.candies@[i].pos.x as int,
            ) <= bound && abs_i(self.candies@[i].pos.y as int) <= bound
    }

    /// Well-formed between frames: core invariants plus settled positions.
    pub open spec fn wf(self) -> bool {
        &&& self.core_wf()
        &&& self.pos_ok(POS_LIMIT as int)
    }

    /// Mid-frame well-formedness: positions may be in the slack band until
    /// the confinement clamp runs.
    pub open spec fn wf_slack(self) -> bool {
        &&& self.core_wf()
        &&& self.pos_ok(POS_SLACK_LIMIT as int)
    }

    /// Number of live candies.
    pub open spec fn live_candies(self) -> nat {
        alive_count(self.candies@)
    }

    /// A fresh world: phase `Init`, the player at the origin at scale 1.0,
    /// no candies, the spawn timer full.
    pub fn new(window: WindowSize, player_img: ImageSize, candy_img: ImageSize) -> (w: GameWorld)
        requires
            1 <= window.w_px <= WINDOW_PX_MAX,
            1 <= window.h_px <= WINDOW_PX_MAX,
            1 <= player_img.w_px <= IMG_PX_MAX,
            1 <= player_img.h_px <= IMG_PX_MAX,
            1 <= candy_img.w_px <= IMG_PX_MAX,
            1 <= candy_img.h_px <= IMG_PX_MAX,
            player_img.w_px * 6 <= window.w_px,
            player_img.h_px * 6 <= window.h_px,
            candy_img.w_px * 6 <= window.w_px,
            candy_img.h_px * 6 <= window.h_px,
        ensures
            w.wf(),
            w.phase == GameState::Init,
            w.player.pos == (Vec2 { x: 0, y: 0 }),
            w.player.scale == SCALE_ONE,
            w.candies@.len() == 0,
            w.live_candies() == 0,
            w.now_ms == 0,
            w.window == window,
            w.player_img == player_img,
            w.candy_img == candy_img,
            w.spawn_timer.period_ms == CANDY_SPAWN_TIMER_MS,
            w.spawn_timer.remaining_ms == CANDY_SPAWN_TIMER_MS,
        {
        GameWorld {
            phase: GameState::Init,
            player: Player { pos: Vec2 { x: 0, y: 0 }, scale: SCALE_ONE },
            candies: Vec::new(),
            spawn_timer: CandySpawnTimer {
                remaining_ms: CANDY_SPAWN_TIMER_MS,
                period_ms: CANDY_SPAWN_TIMER_MS,
            },
            shrink: ShrinkData { initial_scale_x: SCALE_ONE, total_time: 0 },
            pulse: TitlePulseData { start_time: 0 },
            window,
            player_img,
            candy_img,
            now_ms: 0,
        }
    }

    /// Count the live candies.
    pub fn count_live_candies(&self) -> (n: usize)
        ensures
            n == self.live_candies(),
            n <= self.candies@.len(),
    {
        let mut n: usize = 0;
        let mut i: usize = 0;
        proof {
            lemma_alive_count_le_len(self.candies@);
        }
        while i < self.candies.len()
            invariant
                i <= self.candies@.len(),
                n == alive_count(self.candies@.take(i as int)),
                n <= i,
            decreases self.candies@.len() - i,
        {
            proof {
                lemma_alive_count_take_step(self.candies@, i as int);
            }
            if self.candies[i].alive {
                n = n + 1;
            }
            i = i + 1;
        }
        proof {
            lemma_alive_count_whole(self.candies@);
        }
        n
    }
}

} // verus!
