//! Fixed-point 2D geometry: vectors in milli-units, per-mille direction
//! vectors, distances, and the per-entity confinement rectangle.

use vstd::prelude::*;

use crate::math::abs_i;
use crate::math::clamp_spec;
use crate::math::isqrt_u64;
use crate::math::lemma_sqrt_floor_ge;
use crate::math::sqrt_floor;

verus! {

/// A 2D vector. Positions are in milli-units (one thousandth of a world
/// unit); direction vectors are in per-mille of a unit vector.
#[derive(Clone, Copy, PartialEq, Eq, Structural, Debug)]
pub struct Vec2 {
    pub x: i64,
    pub y: i64,
}

/// The pixel size of a sprite image; one pixel is one world unit.
#[derive(Clone, Copy, PartialEq, Eq, Structural, Debug)]
pub struct ImageSize {
    pub w_px: i64,
    pub h_px: i64,
}

/// The window size in pixels (world units).
#[derive(Clone, Copy, PartialEq, Eq, Structural, Debug)]
pub struct WindowSize {
    pub w_px: i64,
    pub h_px: i64,
}

/// An axis-aligned rectangle in milli-units, within which an entity's
/// center must remain.
#[derive(Clone, Copy, PartialEq, Eq, Structural, Debug)]
pub struct Rect {
    pub min_x: i64,
    pub max_x: i64,
    pub min_y: i64,
    pub max_y: i64,
}

/// Largest magnitude a coordinate may reach between frames (after the
/// confinement clamp).
pub const POS_LIMIT: i64 = 1_000_000_000;

/// Largest magnitude a coordinate may reach after the movement systems of
/// one frame, before the attraction force is added.
pub const POS_MID_LIMIT: i64 = 1_100_000_000;

/// Largest magnitude a coordinate may reach within a frame, before the
/// confinement clamp runs.
pub const POS_SLACK_LIMIT: i64 = 1_200_000_000;

pub const WINDOW_PX_MAX: i64 = 1_000_000;

pub const IMG_PX_MAX: i64 = 100_000;

/// Scale factors are in per-mille: 1000 is scale 1.0.
pub const SCALE_ONE: i64 = 1000;

/// Headroom bound on a scale factor between clamps.
pub const SCALE_LIMIT: i64 = 1_000_000;

/// Squared length of a vector, as a mathematical integer.
pub open spec fn norm_sq_spec(x: int, y: int) -> int {
    x * x + y * y
}

/// Milli-unit distance between two points: the floor of the Euclidean
/// distance.
pub open spec fn dist_spec(ax: int, ay: int, bx: int, by: int) -> int {
    sqrt_floor(norm_sq_spec(ax - bx, ay - by) as nat) as int
}

/// A direction vector is unit-length when its per-mille squared norm lies
/// in a narrow band around 1000 * 1000; integer normalization lands in the
/// band, and flipping a component keeps the squared norm unchanged.
pub open spec fn is_unit_dir(dx: int, dy: int) -> bool {
    990_000 <= norm_sq_spec(dx, dy) <= 1_010_000
}

/// Squared length of a vector whose components are at most 3e9 in
/// magnitude, computed exactly in `u64`.
pub fn norm_sq_u64(dx: i64, dy: i64) -> (r: u64)
    requires
        abs_i(dx as int) <= 3_000_000_000,
        abs_i(dy as int) <= 3_000_000_000,
    ensures
        r == norm_sq_spec(dx as int, dy as int),
{
    let ax: u64 = if dx < 0 {
        (-dx) as u64
    } else {
        dx as u64
    };
    let ay: u64 = if dy < 0 {
        (-dy) as u64
    } else {
        dy as u64
    };
    proof {
        assert(ax * ax == dx as int * dx as int && ax * ax <= 9_000_000_000_000_000_000)
            by (nonlinear_arith)
            requires
                ax == abs_i(dx as int),
                ax <= 3_000_000_000,
        ;
        assert(ay * ay == dy as int * dy as int && ay * ay <= 9_000_000_000_000_000_000)
            by (nonlinear_arith)
            requires
                ay == abs_i(dy as int),
                ay <= 3_000_000_000,
        ;
    }
    ax * ax + ay * ay
}

/// Distance in milli-units between two points.
pub fn dist_milli(a: Vec2, b: Vec2) -> (r: i64)
    requires
        abs_i(a.x as int) <= 1_500_000_000,
        abs_i(a.y as int) <= 1_500_000_000,
        abs_i(b.x as int) <= 1_500_000_000,
        abs_i(b.y as int) <= 1_500_000_000,
    ensures
        r == dist_spec(a.x as int, a.y as int, b.x as int, b.y as int),
        0 <= r <= 0xffff_ffff,
{
    let dx: i64 = a.x - b.x;
    let dy: i64 = a.y - b.y;
    let s: u64 = norm_sq_u64(dx, dy);
    let r: u64 = isqrt_u64(s);
    r as i64
}

/// The length that integer normalization divides by.
pub open spec fn norm_len(x: int, y: int) -> int {
    sqrt_floor(norm_sq_spec(x, y) as nat) as int
}

/// The x component of `normalize_or_axis`'s result.
pub open spec fn norm_dir_x(x: int, y: int) -> int {
    if x == 0 && y == 0 {
        1000
    } else {
        let len = norm_len(x, y);
        let mx = abs_i(x) * 1000 / len;
        let my = abs_i(y) * 1000 / len;
        if mx > 1000 || my > 1000 {
            1000
        } else {
            let sx = if x < 0 {
                -mx
            } else {
                mx
            };
            let sy = if y < 0 {
                -my
            } else {
                my
            };
            if 990_000 <= sx * sx + sy * sy <= 1_010_000 {
                sx
            } else {
                1000
            }
        }
    }
}

/// The y component of `normalize_or_axis`'s result.
pub open spec fn norm_dir_y(x: int, y: int) -> int {
    if x == 0 && y == 0 {
        0
    } else {
        let len = norm_len(x, y);
        let mx = abs_i(x) * 1000 / len;
        let my = abs_i(y) * 1000 / len;
        if mx > 1000 || my > 1000 {
            0
        } else {
            let sx = if x < 0 {
                -mx
            } else {
                mx
            };
            let sy = if y < 0 {
                -my
            } else {
                my
            };
            if 990_000 <= sx * sx + sy * sy <= 1_010_000 {
                sy
            } else {
                0
            }
        }
    }
}

/// Scale a nonzero vector to (approximately) unit length, in per-mille.
/// A zero vector, or a result whose rounding fell outside the unit band,
/// falls back to the positive x axis unit vector.
pub fn normalize_or_axis(x: i64, y: i64) -> (d: Vec2)
    requires
        abs_i(x as int) <= 3_000_000_000,
        abs_i(y as int) <= 3_000_000_000,
    ensures
        d.x == norm_dir_x(x as int, y as int),
        d.y == norm_dir_y(x as int, y as int),
        is_unit_dir(d.x as int, d.y as int),
{
    if x == 0 && y == 0 {
        proof {
            assert(is_unit_dir(1000, 0)) by (nonlinear_arith);
        }
        return Vec2 { x: 1000, y: 0 };
    }
    let ax: u64 = if x < 0 {
        (-x) as u64
    } else {
        x as u64
    };
    let ay: u64 = if y < 0 {
        (-y) as u64
    } else {
        y as u64
    };
    let s: u64 = norm_sq_u64(x, y);
    proof {
        assert(s >= 1) by (nonlinear_arith)
            requires
                s == norm_sq_spec(x as int, y as int),
                !(x == 0 && y == 0),
        ;
        lemma_sqrt_floor_ge(s as nat, 1);
    }
    let len: u64 = isqrt_u64(s);
    let mx: u64 = (ax * 1000) / len;
    let my: u64 = (ay * 1000) / len;
    if mx > 1000 || my > 1000 {
        proof {
            assert(is_unit_dir(1000, 0)) by (nonlinear_arith);
        }
        return Vec2 { x: 1000, y: 0 };
    }
    let sx: i64 = if x < 0 {
        -(mx as i64)
    } else {
        mx as i64
    };
    let sy: i64 = if y < 0 {
        -(my as i64)
    } else {
        my as i64
    };
    proof {
        assert(0 <= sx * sx <= 1_000_000 && 0 <= sy * sy <= 1_000_000) by (nonlinear_arith)
            requires
                -1000 <= sx <= 1000,
                -1000 <= sy <= 1000,
        ;
    }
    let s2: i64 = sx * sx + sy * sy;
    if 990_000 <= s2 && s2 <= 1_010_000 {
        Vec2 { x: sx, y: sy }
    } else {
        proof {
            assert(is_unit_dir(1000, 0)) by (nonlinear_arith);
        }
        Vec2 { x: 1000, y: 0 }
    }
}

/// A unit direction vector's components are below 1005 in magnitude.
pub proof fn lemma_unit_dir_bounds(dx: int, dy: int)
    requires
        is_unit_dir(dx, dy),
    ensures
        abs_i(dx) <= 1005,
        abs_i(dy) <= 1005,
{
    assert(abs_i(dx) <= 1005 && abs_i(dy) <= 1005) by (nonlinear_arith)
        requires
            dx * dx + dy * dy <= 1_010_000,
    ;
}

/// Negating either component of a direction vector keeps it unit-length:
/// a wall bounce never changes a candy direction's length.
pub proof fn lemma_flip_preserves_unit(dx: int, dy: int, fx: bool, fy: bool)
    requires
        is_unit_dir(dx, dy),
    ensures
        is_unit_dir(if fx { -dx } else { dx }, if fy { -dy } else { dy }),
{
    assert((-dx) * (-dx) == dx * dx) by (nonlinear_arith);
    assert((-dy) * (-dy) == dy * dy) by (nonlinear_arith);
}

/// Half of an entity's on-screen width (or height) in milli-units: the
/// image size in pixels times the per-mille scale, halved.
pub open spec fn half_extent_spec(img_px: int, scale: int) -> int {
    img_px * scale / 2
}

pub open spec fn rect_min_x_spec(win_w_px: int, img_w_px: int, scale: int) -> int {
    -(win_w_px * 500) + half_extent_spec(img_w_px, scale)
}

pub open spec fn rect_max_x_spec(win_w_px: int, img_w_px: int, scale: int) -> int {
    win_w_px * 500 - half_extent_spec(img_w_px, scale)
}

pub open spec fn rect_min_y_spec(win_h_px: int, img_h_px: int, scale: int) -> int {
    -(win_h_px * 500) + half_extent_spec(img_h_px, scale)
}

pub open spec fn rect_max_y_spec(win_h_px: int, img_h_px: int, scale: int) -> int {
    win_h_px * 500 - half_extent_spec(img_h_px, scale)
}

/// Executable half extent.
pub fn half_extent(img_px: i64, scale: i64) -> (r: i64)
    requires
        0 <= img_px <= IMG_PX_MAX,
        0 <= scale <= 2 * SCALE_LIMIT,
    ensures
        r == half_extent_spec(img_px as int, scale as int),
        0 <= r <= IMG_PX_MAX * SCALE_LIMIT,
{
    proof {
        assert(0 <= img_px as int * scale as int <= IMG_PX_MAX * (2 * SCALE_LIMIT))
            by (nonlinear_arith)
            requires
                0 <= img_px <= IMG_PX_MAX,
                0 <= scale <= 2 * SCALE_LIMIT,
        ;
    }
    let p: i64 = img_px * scale;
    ((p as u64) / 2) as i64
}

/// The confinement rectangle for an entity: the window half-extents inset
/// by half the entity's scaled sprite size.
pub fn calculate_confinement_rect(win: WindowSize, img: ImageSize, scale: i64) -> (r: Rect)
    requires
        1 <= win.w_px <= WINDOW_PX_MAX,
        1 <= win.h_px <= WINDOW_PX_MAX,
        0 <= img.w_px <= IMG_PX_MAX,
        0 <= img.h_px <= IMG_PX_MAX,
        0 <= scale <= 2 * SCALE_LIMIT,
    ensures
        r.min_x == rect_min_x_spec(win.w_px as int, img.w_px as int, scale as int),
        r.max_x == rect_max_x_spec(win.w_px as int, img.w_px as int, scale as int),
        r.min_y == rect_min_y_spec(win.h_px as int, img.h_px as int, scale as int),
        r.max_y == rect_max_y_spec(win.h_px as int, img.h_px as int, scale as int),
{
    let half_x: i64 = half_extent(img.w_px, scale);
    let half_y: i64 = half_extent(img.h_px, scale);
    Rect {
        min_x: -(win.w_px * 500) + half_x,
        max_x: win.w_px * 500 - half_x,
        min_y: -(win.h_px * 500) + half_y,
        max_y: win.h_px * 500 - half_y,
    }
}

/// When the scaled sprite fits in the window, the confinement rectangle is
/// nonempty.
pub proof fn lemma_rect_nonempty(win_px: int, img_px: int, scale: int)
    requires
        img_px * 6 <= win_px,
        0 <= img_px,
        0 <= scale <= 6000,
    ensures
        half_extent_spec(img_px, scale) <= win_px * 500,
{
    assert(img_px * scale / 2 <= win_px * 500) by (nonlinear_arith)
        requires
            img_px * 6 <= win_px,
            0 <= img_px,
            0 <= scale <= 6000,
    ;
}

/// Clamping a coordinate into a rectangle side is idempotent.
pub proof fn lemma_clamp_idempotent(x: int, lo: int, hi: int)
    requires
        lo <= hi,
    ensures
        clamp_spec(clamp_spec(x, lo, hi), lo, hi) == clamp_spec(x, lo, hi),
{
}

} // verus!
