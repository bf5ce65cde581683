//! The configuration surface: operator settings, bounded to their ranges,
//! and how a change of settings reaches a running animator.
use vstd::prelude::*;
use crate::easing::SCALE;
use crate::geometry::{ScreenRegion, Viewport};
use crate::animator::{Animator, Config};

verus! {

/// Largest screen coordinate or extent an operator may set, in pixels.
pub const MAX_SCREEN: u32 = 11_520;
/// Largest zoom factor an operator may set, in units of `1 / SCALE`.
pub const MAX_ZOOM: u64 = 5 * SCALE;
/// Largest padding an operator may set, in units of `1 / SCALE`.
pub const MAX_PADDING: u64 = SCALE / 2;
/// Shortest transition an operator may set, in microseconds.
pub const MIN_ANIMATION_TIME: u64 = 300_000;
/// Longest transition an operator may set, in microseconds.
pub const MAX_ANIMATION_TIME: u64 = 10_000_000;
/// Padding used when none is set.
pub const DEFAULT_PADDING: u64 = 100_000;
/// Region size used when none is set.
pub const DEFAULT_WIDTH: u32 = 1920;
pub const DEFAULT_HEIGHT: u32 = 1080;

/// Operator settings as the host hands them over. A value that is set is
/// brought into its operator range; a missing one keeps what was there (or
/// the default, at creation).
#[derive(Clone, Copy, Debug)]
pub struct Settings {
    /// Zoom factor, at least one, in units of `1 / SCALE`.
    pub zoom: Option<u64>,
    pub screen_x: Option<i64>,
    pub screen_y: Option<i64>,
    pub screen_width: Option<i64>,
    pub screen_height: Option<i64>,
    /// Extra margin around each window, in units of `1 / SCALE`.
    pub padding: Option<u64>,
    /// Transition length, in microseconds.
    pub animation_time: Option<u64>,
}

/// `v` brought into `[lo, hi]`.
pub open spec fn bound(v: int, lo: int, hi: int) -> int {
    if v < lo {
        lo
    } else if v > hi {
        hi
    } else {
        v
    }
}

/// The tightest zoom allowed under an operator zoom factor: its reciprocal.
pub open spec fn min_zoom_for(zoom: int) -> int {
    (SCALE * SCALE) as int / bound(zoom, SCALE as int, MAX_ZOOM as int)
}

pub fn screen_coord(v: i64) -> (r: u32)
    ensures
        r == bound(v as int, 0, MAX_SCREEN as int),
{
    if v < 0 {
        0
    } else if v > MAX_SCREEN as i64 {
        MAX_SCREEN
    } else {
        v as u32
    }
}

pub fn screen_extent(v: i64) -> (r: u32)
    ensures
        r == bound(v as int, 1, MAX_SCREEN as int),
{
    if v < 1 {
        1
    } else if v > MAX_SCREEN as i64 {
        MAX_SCREEN
    } else {
        v as u32
    }
}

pub fn padding_of(v: u64) -> (r: u64)
    ensures
        r == bound(v as int, 0, MAX_PADDING as int),
{
    if v > MAX_PADDING {
        MAX_PADDING
    } else {
        v
    }
}

pub fn animation_time_of(v: u64) -> (r: u64)
    ensures
        r == bound(v as int, MIN_ANIMATION_TIME as int, MAX_ANIMATION_TIME as int),
{
    if v < MIN_ANIMATION_TIME {
        MIN_ANIMATION_TIME
    } else if v > MAX_ANIMATION_TIME {
        MAX_ANIMATION_TIME
    } else {
        v
    }
}

pub fn min_zoom_of(zoom: u64) -> (r: u64)
    ensures
        r == min_zoom_for(zoom as int),
        SCALE / 5 <= r <= SCALE,
{
    let z = if zoom < SCALE {
        SCALE
    } else if zoom > MAX_ZOOM {
        MAX_ZOOM
    } else {
        zoom
    };
    proof {
        vstd::arithmetic::div_mod::lemma_div_is_ordered_by_denominator(
            (SCALE * SCALE) as int,
            SCALE as int,
            z as int,
        );
        vstd::arithmetic::div_mod::lemma_div_is_ordered_by_denominator(
            (SCALE * SCALE) as int,
            z as int,
            MAX_ZOOM as int,
        );
        assert((SCALE * SCALE) as int / SCALE as int == SCALE);
        assert((SCALE * SCALE) as int / MAX_ZOOM as int == SCALE / 5);
    }
    SCALE * SCALE / z
}

/// The value `o` sets, brought into `[lo, hi]`; `old` where it sets none.
pub open spec fn pick_i(o: Option<i64>, old: int, lo: int, hi: int) -> int {
    match o {
        Some(v) => bound(v as int, lo, hi),
        None => old,
    }
}

/// The value `o` sets, brought into `[lo, hi]`; `old` where it sets none.
pub open spec fn pick_u(o: Option<u64>, old: int, lo: int, hi: int) -> int {
    match o {
        Some(v) => bound(v as int, lo, hi),
        None => old,
    }
}

impl Config {
    /// The configuration that `s` sets up, over `self` for what it leaves out.
    pub open spec fn merge_spec(self, s: Settings) -> Config {
        Config {
            region: ScreenRegion {
                x: pick_i(s.screen_x, self.region.x as int, 0, MAX_SCREEN as int) as u32,
                y: pick_i(s.screen_y, self.region.y as int, 0, MAX_SCREEN as int) as u32,
                width: pick_i(s.screen_width, self.region.width as int, 1, MAX_SCREEN as int)
                    as u32,
                height: pick_i(s.screen_height, self.region.height as int, 1, MAX_SCREEN as int)
                    as u32,
            },
            padding: pick_u(s.padding, self.padding as int, 0, MAX_PADDING as int) as u64,
            min_zoom: match s.zoom {
                Some(z) => min_zoom_for(z as int) as u64,
                None => self.min_zoom,
            },
            animation_time: pick_u(
                s.animation_time,
                self.animation_time as int,
                MIN_ANIMATION_TIME as int,
                MAX_ANIMATION_TIME as int,
            ) as u64,
        }
    }

    /// The configuration used when nothing is set.
    pub open spec fn default_spec() -> Config {
        Config {
            region: ScreenRegion { x: 0, y: 0, width: DEFAULT_WIDTH, height: DEFAULT_HEIGHT },
            padding: DEFAULT_PADDING,
            min_zoom: SCALE,
            animation_time: MIN_ANIMATION_TIME,
        }
    }

    /// The configuration that `s` sets up, over `self` for what it leaves out.
    pub fn merge(&self, s: &Settings) -> (r: Config)
        requires
            self.wf(),
        ensures
            r == self.merge_spec(*s),
            r.wf(),
    {
        let x = match s.screen_x {
            Some(v) => screen_coord(v),
            None => self.region.x,
        };
        let y = match s.screen_y {
            Some(v) => screen_coord(v),
            None => self.region.y,
        };
        let width = match s.screen_width {
            Some(v) => screen_extent(v),
            None => self.region.width,
        };
        let height = match s.screen_height {
            Some(v) => screen_extent(v),
            None => self.region.height,
        };
        let padding = match s.padding {
            Some(v) => padding_of(v),
            None => self.padding,
        };
        let min_zoom = match s.zoom {
            Some(z) => min_zoom_of(z),
            None => self.min_zoom,
        };
        let animation_time = match s.animation_time {
            Some(v) => animation_time_of(v),
            None => self.animation_time,
        };
        Config { region: ScreenRegion { x, y, width, height }, padding, min_zoom, animation_time }
    }

    /// The configuration that `s` sets up at creation, with a default for
    /// each value it leaves out.
    pub fn from_settings(s: &Settings) -> (r: Config)
        ensures
            r == Config::default_spec().merge_spec(*s),
            r.wf(),
    {
        let base = Config {
            region: ScreenRegion { x: 0, y: 0, width: DEFAULT_WIDTH, height: DEFAULT_HEIGHT },
            padding: DEFAULT_PADDING,
            min_zoom: SCALE,
            animation_time: MIN_ANIMATION_TIME,
        };
        base.merge(s)
    }
}

impl Animator {
    /// The state after a change of settings. A new zoom factor starts a
    /// transition, from the crop box shown now, to the target at the new
    /// zoom bound, its offset pulled back inside the screen.
    pub open spec fn configure_spec(self, s: Settings) -> Animator {
        let c = self.config.merge_spec(s);
        let a = Animator { config: c, ..self };
        match s.zoom {
            Some(_) => {
                let z = c.min_zoom;
                let x = if self.target.x + z > SCALE {
                    (SCALE - z) as u64
                } else {
                    self.target.x
                };
                let y = if self.target.y + z > SCALE {
                    (SCALE - z) as u64
                } else {
                    self.target.y
                };
                a.retarget_spec(Viewport { x, y, zoom: z })
            },
            None => a,
        }
    }

    /// Takes in a change of settings.
    pub fn configure(&mut self, s: &Settings)
        requires
            old(self).wf(),
        ensures
            *final(self) == old(self).configure_spec(*s),
            final(self).wf(),
    {
        let c = self.config.merge(s);
        self.config = c;
        match s.zoom {
            Some(_) => {
                let z = c.min_zoom;
                let x = if self.target.x + z > SCALE {
                    SCALE - z
                } else {
                    self.target.x
                };
                let y = if self.target.y + z > SCALE {
                    SCALE - z
                } else {
                    self.target.y
                };
                proof {
                    crate::animator::lemma_retarget_continuous(*self, Viewport { x, y, zoom: z });
                }
                self.from = self.current;
                self.target = Viewport { x, y, zoom: z };
                self.progress = 0;
            },
            None => {},
        }
    }
}

} // verus!
