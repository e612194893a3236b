//! Screen/world coordinates, the camera, and grid snapping.
//!
//! The editor works on a square grid of `TILE_SIZE`-unit cells.  A continuous
//! world coordinate `c` belongs to cell `c / TILE_SIZE` (floor division), and
//! placed objects sit at the centre of their cell, at
//! `(c / TILE_SIZE) * TILE_SIZE + TILE_HALF` on each axis.  Screen
//! coordinates follow the windowing convention (origin in a corner, y grows
//! downward); world coordinates have y growing upward.  Objects also carry a
//! fixed depth layer and a fixed `TILE_SIZE` x `TILE_SIZE` extent, neither of
//! which varies, so positions alone are modelled here.

use vstd::prelude::*;

verus! {

use vstd::arithmetic::div_mod::lemma_fundamental_div_mod;
use vstd::arithmetic::div_mod::lemma_div_multiples_vanish_fancy;

/// Edge length of one grid cell, in world units.
pub const TILE_SIZE: i64 = 24;

/// Offset from a cell's low corner to its centre.
pub const TILE_HALF: i64 = 12;

/// The camera centre is kept within this distance of the world origin on
/// each axis, so that every screen/world conversion is exact in 64 bits.
pub const CAMERA_BOUND: i64 = 1_000_000_000_000;

/// A cursor position in window (screen) coordinates.
#[derive(Clone, Copy, PartialEq, Eq, Structural, Debug)]
pub struct ScreenPos {
    pub x: i32,
    pub y: i32,
}

/// A position in world coordinates.
#[derive(Clone, Copy, PartialEq, Eq, Structural, Debug)]
pub struct WorldPos {
    pub x: i64,
    pub y: i64,
}

/// The 2D camera, reduced to the world position it is centred on.
#[derive(Clone, Copy, PartialEq, Eq, Structural, Debug)]
pub struct Camera {
    pub x: i64,
    pub y: i64,
}

impl Camera {
    /// The camera stays inside a fixed working volume (see `CAMERA_BOUND`).
    pub open spec fn wf(self) -> bool {
        &&& -CAMERA_BOUND <= self.x <= CAMERA_BOUND
        &&& -CAMERA_BOUND <= self.y <= CAMERA_BOUND
    }
}

/// The window's drawable area, in screen units.
#[derive(Clone, Copy, PartialEq, Eq, Structural, Debug)]
pub struct Viewport {
    pub width: i32,
    pub height: i32,
}

impl Viewport {
    pub open spec fn wf(self) -> bool {
        &&& 0 < self.width
        &&& 0 < self.height
    }
}

/// Cell-centre snapping: `(c / TILE_SIZE) * TILE_SIZE + TILE_HALF`,
/// with floor division.
pub open spec fn spec_snap(c: int) -> int {
    (c / (TILE_SIZE as int)) * (TILE_SIZE as int) + (TILE_HALF as int)
}

/// Index of the grid cell that contains world coordinate `c`.
pub open spec fn cell_of(c: int) -> int {
    c / (TILE_SIZE as int)
}

/// Snaps one world coordinate to the centre of its grid cell.
pub fn snap_coord(c: i64) -> (r: i64)
    requires
        i64::MIN + TILE_HALF <= c <= i64::MAX - TILE_HALF,
    ensures
        r == spec_snap(c as int),
{
    let m: i64 = c.checked_rem_euclid(TILE_SIZE).unwrap();
    proof {
        lemma_fundamental_div_mod(c as int, TILE_SIZE as int);
    }
    c + (TILE_HALF - m)
}

/// Snapping is idempotent: a cell centre snaps to itself.
pub proof fn lemma_snap_idempotent(c: int)
    ensures
        spec_snap(spec_snap(c)) == spec_snap(c),
{
    let q: int = c / (TILE_SIZE as int);
    lemma_div_multiples_vanish_fancy(q, TILE_HALF as int, TILE_SIZE as int);
    assert((TILE_SIZE as int) * q == q * (TILE_SIZE as int)) by (nonlinear_arith);
}

/// Snapping keeps a coordinate in its own cell.
pub proof fn lemma_snap_same_cell(c: int)
    ensures
        cell_of(spec_snap(c)) == cell_of(c),
{
    let q: int = c / (TILE_SIZE as int);
    lemma_div_multiples_vanish_fancy(q, TILE_HALF as int, TILE_SIZE as int);
    assert((TILE_SIZE as int) * q == q * (TILE_SIZE as int)) by (nonlinear_arith);
}

/// Whether a cursor position lies inside the viewport; outside of it the
/// screen-to-world projection has no answer and falls back to the origin.
pub open spec fn in_viewport(vp: Viewport, p: ScreenPos) -> bool {
    &&& 0 <= p.x <= vp.width
    &&& 0 <= p.y <= vp.height
}

/// Continuous world x-coordinate under the cursor, before snapping.
pub open spec fn unprojected_x(cam: Camera, vp: Viewport, p: ScreenPos) -> int {
    if in_viewport(vp, p) {
        cam.x + p.x - vp.width / 2
    } else {
        0
    }
}

/// Continuous world y-coordinate under the cursor, before snapping.
pub open spec fn unprojected_y(cam: Camera, vp: Viewport, p: ScreenPos) -> int {
    if in_viewport(vp, p) {
        cam.y + vp.height / 2 - p.y
    } else {
        0
    }
}

/// The grid-snapped world position a click at `p` lands on.
pub open spec fn spec_screen_to_world(cam: Camera, vp: Viewport, p: ScreenPos) -> WorldPos {
    WorldPos {
        x: spec_snap(unprojected_x(cam, vp, p)) as i64,
        y: spec_snap(unprojected_y(cam, vp, p)) as i64,
    }
}

/// Maps a cursor position to the grid-snapped world position under it.
///
/// The cursor is projected through the camera (an exact integer offset in
/// this model); a cursor outside the viewport falls back to the world
/// origin.  The result is snapped to the centre of its grid cell.
pub fn screen_to_world(cam: &Camera, vp: &Viewport, p: ScreenPos) -> (r: WorldPos)
    requires
        cam.wf(),
        vp.wf(),
    ensures
        r.x == spec_snap(unprojected_x(*cam, *vp, p)),
        r.y == spec_snap(unprojected_y(*cam, *vp, p)),
        r == spec_screen_to_world(*cam, *vp, p),
{
    let inside = 0 <= p.x && p.x <= vp.width && 0 <= p.y && p.y <= vp.height;
    let half_w: i64 = (vp.width as i64).checked_div_euclid(2).unwrap();
    let half_h: i64 = (vp.height as i64).checked_div_euclid(2).unwrap();
    let ux: i64 = if inside {
        cam.x + (p.x as i64) - half_w
    } else {
        0
    };
    let uy: i64 = if inside {
        cam.y + half_h - (p.y as i64)
    } else {
        0
    };
    WorldPos { x: snap_coord(ux), y: snap_coord(uy) }
}

/// The screen position at which world position `w` appears, if it is on
/// screen.
pub open spec fn spec_world_to_screen(cam: Camera, vp: Viewport, w: WorldPos) -> Option<
    ScreenPos,
> {
    let sx: int = w.x - cam.x + vp.width / 2;
    let sy: int = cam.y + vp.height / 2 - w.y;
    if 0 <= sx <= vp.width && 0 <= sy <= vp.height {
        Some(ScreenPos { x: sx as i32, y: sy as i32 })
    } else {
        None
    }
}

/// Inverse of the projection: where on screen a world position appears,
/// or `None` when it is outside the viewport.
pub fn world_to_screen(cam: &Camera, vp: &Viewport, w: WorldPos) -> (r: Option<ScreenPos>)
    requires
        cam.wf(),
        vp.wf(),
    ensures
        r == spec_world_to_screen(*cam, *vp, w),
{
    let half_w: i64 = (vp.width as i64).checked_div_euclid(2).unwrap();
    let half_h: i64 = (vp.height as i64).checked_div_euclid(2).unwrap();
    let dx: Option<i64> = w.x.checked_sub(cam.x);
    let sx: Option<i64> = match dx {
        Some(d) => d.checked_add(half_w),
        None => None,
    };
    let dy: Option<i64> = cam.y.checked_add(half_h);
    let sy: Option<i64> = match dy {
        Some(d) => d.checked_sub(w.y),
        None => None,
    };
    match (sx, sy) {
        (Some(px), Some(py)) => {
            if 0 <= px && px <= vp.width as i64 && 0 <= py && py <= vp.height as i64 {
                Some(ScreenPos { x: px as i32, y: py as i32 })
            } else {
                None
            }
        },
        _ => None,
    }
}

/// Round trip: a world position that is on screen maps back, through the
/// click mapper, to the snapped centre of its own grid cell.
pub proof fn lemma_screen_world_round_trip(cam: Camera, vp: Viewport, w: WorldPos, p: ScreenPos)
    requires
        cam.wf(),
        vp.wf(),
        spec_world_to_screen(cam, vp, w) == Some(p),
    ensures
        spec_screen_to_world(cam, vp, p).x == spec_snap(w.x as int),
        spec_screen_to_world(cam, vp, p).y == spec_snap(w.y as int),
        cell_of(spec_screen_to_world(cam, vp, p).x as int) == cell_of(w.x as int),
        cell_of(spec_screen_to_world(cam, vp, p).y as int) == cell_of(w.y as int),
{
    let sx: int = w.x - cam.x + vp.width / 2;
    let sy: int = cam.y + vp.height / 2 - w.y;
    assert(p.x == sx && p.y == sy);
    assert(in_viewport(vp, p));
    assert(unprojected_x(cam, vp, p) == w.x);
    assert(unprojected_y(cam, vp, p) == w.y);
    lemma_snap_same_cell(w.x as int);
    lemma_snap_same_cell(w.y as int);
}

} // verus!
