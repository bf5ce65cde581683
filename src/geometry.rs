//! Plain geometry: window snapshots, the tracked screen region, normalized
//! viewports, and the pure rules that turn one into another.
use vstd::prelude::*;
use vstd::arithmetic::div_mod::lemma_div_is_ordered;
use crate::easing::SCALE;

verus! {

/// Smallest change of offset or zoom that starts a new transition.
pub const TOLERANCE: u64 = 1_000;

/// The focused window's bounding box, in screen pixels.
#[derive(Clone, Copy, Debug, PartialEq, Eq, Structural)]
pub struct WindowSnapshot {
    pub x: i32,
    pub y: i32,
    pub width: u32,
    pub height: u32,
}

/// The part of the physical screen that is tracked, in screen pixels.
#[derive(Clone, Copy, Debug, PartialEq, Eq, Structural)]
pub struct ScreenRegion {
    pub x: u32,
    pub y: u32,
    pub width: u32,
    pub height: u32,
}

/// A crop box in normalized screen space: top-left `(x, y)` and side `zoom`,
/// all in units of `1 / SCALE`.
#[derive(Clone, Copy, Debug, PartialEq, Eq, Structural)]
pub struct Viewport {
    pub x: u64,
    pub y: u64,
    pub zoom: u64,
}

impl ScreenRegion {
    pub open spec fn wf(&self) -> bool {
        self.width >= 1 && self.height >= 1
    }
}

impl Viewport {
    /// The crop box is non-empty and lies inside the screen.
    pub open spec fn wf(&self) -> bool {
        0 < self.zoom <= SCALE && self.x + self.zoom <= SCALE && self.y + self.zoom <= SCALE
    }

    /// The resting pose: the whole screen, no zoom.
    pub open spec fn resting_spec() -> Viewport {
        Viewport { x: 0, y: 0, zoom: SCALE }
    }

    pub fn resting() -> (r: Viewport)
        ensures
            r == Viewport::resting_spec(),
            r.wf(),
    {
        Viewport { x: 0, y: 0, zoom: SCALE }
    }

    /// The two vectors that the crop pass is given: offset and scale.
    pub fn shader_params(&self) -> (r: ((u64, u64), (u64, u64)))
        ensures
            r == ((self.x, self.y), (self.zoom, self.zoom)),
    {
        ((self.x, self.y), (self.zoom, self.zoom))
    }
}

/// Whether the window's top-left corner lies outside the region.
pub open spec fn outside_spec(w: WindowSnapshot, r: ScreenRegion) -> bool {
    w.x > r.x + r.width || w.x < r.x || w.y < r.y || w.y > r.y + r.height
}

pub fn is_outside(w: &WindowSnapshot, r: &ScreenRegion) -> (b: bool)
    ensures
        b == outside_spec(*w, *r),
{
    let wx = w.x as i64;
    let wy = w.y as i64;
    wx > r.x as i64 + r.width as i64 || wx < r.x as i64 || wy < r.y as i64 || wy > r.y as i64
        + r.height as i64
}

/// `raw` bounded below by `floor` and above by one whole screen.
pub open spec fn clamp_zoom_spec(raw: int, floor: int) -> int {
    let lo = if raw < floor {
        floor
    } else {
        raw
    };
    if lo > SCALE as int {
        SCALE as int
    } else {
        lo
    }
}

pub fn clamp_zoom(raw: u64, floor: u64) -> (r: u64)
    ensures
        r == clamp_zoom_spec(raw as int, floor as int),
{
    let lo = if raw < floor {
        floor
    } else {
        raw
    };
    if lo > SCALE {
        SCALE
    } else {
        lo
    }
}

/// The top-left coordinate of a box of side `zoom` centred on `center`,
/// kept inside `[0, SCALE - zoom]`.
pub open spec fn clamp_offset_spec(center: int, zoom: int) -> int {
    if 2 * center <= zoom {
        0
    } else if (2 * center - zoom) / 2 > SCALE - zoom {
        SCALE - zoom
    } else {
        (2 * center - zoom) / 2
    }
}

pub fn clamp_offset(center: u64, zoom: u64) -> (r: u64)
    requires
        center <= u64::MAX / 2,
        zoom <= SCALE,
    ensures
        r == clamp_offset_spec(center as int, zoom as int),
        r + zoom <= SCALE,
{
    if 2 * center <= zoom {
        0
    } else if (2 * center - zoom) / 2 > SCALE - zoom {
        SCALE - zoom
    } else {
        (2 * center - zoom) / 2
    }
}

/// The window's extent along one axis as a share of the region's extent.
pub open spec fn share(len: int, full: int) -> int {
    len * SCALE / full
}

/// Where the window's centre falls along one axis, as a share of the region.
pub open spec fn center_share(pos: int, len: int, start: int, full: int) -> int {
    (2 * (pos - start) + len) * SCALE / (2 * full)
}

/// The zoom that frames the window: its larger share plus padding,
/// bounded by `min_zoom` and one whole screen.
pub open spec fn window_zoom_spec(
    w: WindowSnapshot,
    r: ScreenRegion,
    padding: int,
    min_zoom: int,
) -> int {
    let sw = share(w.width as int, r.width as int);
    let sh = share(w.height as int, r.height as int);
    let m = if sw < sh {
        sh
    } else {
        sw
    };
    clamp_zoom_spec(m + padding, min_zoom)
}

/// The crop box that frames a window lying inside the region.
pub open spec fn framing_spec(
    w: WindowSnapshot,
    r: ScreenRegion,
    padding: int,
    min_zoom: int,
) -> Viewport {
    let z = window_zoom_spec(w, r, padding, min_zoom);
    let cx = center_share(w.x as int, w.width as int, r.x as int, r.width as int);
    let cy = center_share(w.y as int, w.height as int, r.y as int, r.height as int);
    Viewport { x: clamp_offset_spec(cx, z) as u64, y: clamp_offset_spec(cy, z) as u64, zoom: z as u64 }
}

proof fn lemma_share_fits(len: int, full: int)
    requires
        0 <= len <= u32::MAX,
        1 <= full <= u32::MAX,
    ensures
        0 <= len * SCALE <= u32::MAX * SCALE,
        0 <= share(len, full) <= len * SCALE,
{
    assert(0 <= len * 1_000_000 <= u32::MAX * 1_000_000) by (nonlinear_arith)
        requires
            0 <= len <= u32::MAX,
    ;
    lemma_div_is_ordered(0, len * SCALE, full);
    assert(len * SCALE / full <= len * SCALE) by (nonlinear_arith)
        requires
            0 <= len * SCALE,
            1 <= full,
    ;
}

proof fn lemma_center_fits(d: int, len: int, full: int)
    requires
        0 <= d <= u32::MAX,
        0 <= len <= u32::MAX,
        1 <= full <= u32::MAX,
    ensures
        0 <= (2 * d + len) * SCALE <= 3 * u32::MAX * SCALE,
        0 <= (2 * d + len) * SCALE / (2 * full) <= (2 * d + len) * SCALE,
{
    assert(0 <= (2 * d + len) * 1_000_000 <= 3 * u32::MAX * 1_000_000) by (nonlinear_arith)
        requires
            0 <= 2 * d + len <= 3 * u32::MAX,
    ;
    lemma_div_is_ordered(0, (2 * d + len) * SCALE, 2 * full);
    assert((2 * d + len) * SCALE / (2 * full) <= (2 * d + len) * SCALE) by (nonlinear_arith)
        requires
            0 <= (2 * d + len) * SCALE,
            1 <= full,
    ;
}

/// The framing crop box of a window whose corner lies in the region is a
/// proper crop box.
pub proof fn lemma_framing_wf(w: WindowSnapshot, r: ScreenRegion, padding: int, min_zoom: int)
    requires
        r.wf(),
        !outside_spec(w, r),
        0 < min_zoom <= SCALE,
        0 <= padding <= SCALE,
    ensures
        framing_spec(w, r, padding, min_zoom).wf(),
{
    lemma_share_fits(w.width as int, r.width as int);
    lemma_share_fits(w.height as int, r.height as int);
    lemma_center_fits(w.x - r.x, w.width as int, r.width as int);
    lemma_center_fits(w.y - r.y, w.height as int, r.height as int);
}

/// The crop box that frames `w`, for a window whose corner lies in `r`.
pub fn framing(w: &WindowSnapshot, r: &ScreenRegion, padding: u64, min_zoom: u64) -> (v: Viewport)
    requires
        r.wf(),
        !outside_spec(*w, *r),
        0 < min_zoom <= SCALE,
        padding <= SCALE,
    ensures
        v == framing_spec(*w, *r, padding as int, min_zoom as int),
        v.wf(),
{
    proof {
        lemma_share_fits(w.width as int, r.width as int);
        lemma_share_fits(w.height as int, r.height as int);
        lemma_center_fits(w.x - r.x, w.width as int, r.width as int);
        lemma_center_fits(w.y - r.y, w.height as int, r.height as int);
    }
    let sw = w.width as u64 * SCALE / r.width as u64;
    let sh = w.height as u64 * SCALE / r.height as u64;
    let m = if sw < sh {
        sh
    } else {
        sw
    };
    let z = clamp_zoom(m + padding, min_zoom);
    let dx = (w.x as i64 - r.x as i64) as u64;
    let dy = (w.y as i64 - r.y as i64) as u64;
    let cx = (2 * dx + w.width as u64) * SCALE / (2 * r.width as u64);
    let cy = (2 * dy + w.height as u64) * SCALE / (2 * r.height as u64);
    let x = clamp_offset(cx, z);
    let y = clamp_offset(cy, z);
    Viewport { x, y, zoom: z }
}

/// Whether two crop boxes differ by more than the tolerance on some axis.
pub open spec fn differs_spec(a: Viewport, b: Viewport) -> bool {
    a.y - b.y > TOLERANCE || b.y - a.y > TOLERANCE || a.x - b.x > TOLERANCE || b.x - a.x
        > TOLERANCE || a.zoom - b.zoom > TOLERANCE || b.zoom - a.zoom > TOLERANCE
}

pub fn differs(a: &Viewport, b: &Viewport) -> (r: bool)
    ensures
        r == differs_spec(*a, *b),
{
    let dy = if a.y > b.y {
        a.y - b.y
    } else {
        b.y - a.y
    };
    let dx = if a.x > b.x {
        a.x - b.x
    } else {
        b.x - a.x
    };
    let dz = if a.zoom > b.zoom {
        a.zoom - b.zoom
    } else {
        b.zoom - a.zoom
    };
    dy > TOLERANCE || dx > TOLERANCE || dz > TOLERANCE
}

} // verus!
