//! The viewport animator: folds window snapshots into a target crop box and
//! eases the shown crop box toward it as time passes.
use vstd::prelude::*;
use vstd::arithmetic::div_mod::{lemma_div_is_ordered, lemma_fundamental_div_mod, lemma_mod_pos_bound};
use crate::easing::{SCALE, smooth, smooth_step, lemma_smooth_range, lemma_smooth_monotone};
use crate::geometry::{
    Viewport,
    WindowSnapshot,
    ScreenRegion,
    outside_spec,
    framing_spec,
    differs_spec,
    is_outside,
    framing,
    differs,
    lemma_framing_wf,
};

verus! {

/// What the animator is configured with.
#[derive(Clone, Copy, Debug, PartialEq, Eq, Structural)]
pub struct Config {
    /// The tracked part of the screen.
    pub region: ScreenRegion,
    /// Extra margin added to each window's zoom, in units of `1 / SCALE`.
    pub padding: u64,
    /// The tightest zoom allowed, in units of `1 / SCALE`.
    pub min_zoom: u64,
    /// Length of one transition, in microseconds.
    pub animation_time: u64,
}

impl Config {
    pub open spec fn wf(&self) -> bool {
        self.region.wf() && 0 < self.min_zoom <= SCALE && self.padding <= SCALE
            && self.animation_time > 0
    }
}

/// Animation state: the crop box shown now, where the active transition
/// started and where it is headed, and how far along it is.
#[derive(Clone, Copy, Debug)]
pub struct Animator {
    pub config: Config,
    pub current: Viewport,
    pub from: Viewport,
    pub target: Viewport,
    /// Share of the active transition already done, in units of `1 / SCALE`.
    pub progress: u64,
}

/// The point a share `k` of the way from `a` to `b`, rounded down.
pub open spec fn interp(a: int, b: int, k: int) -> int {
    (a * (SCALE - k) + b * k) / SCALE as int
}

/// The crop box a share `k` of the way from `from` to `to`.
pub open spec fn blend(from: Viewport, to: Viewport, k: int) -> Viewport {
    Viewport {
        x: interp(from.x as int, to.x as int, k) as u64,
        y: interp(from.y as int, to.y as int, k) as u64,
        zoom: interp(from.zoom as int, to.zoom as int, k) as u64,
    }
}

/// `v` lies between `a` and `b`, on whichever side each is.
pub open spec fn between(v: int, a: int, b: int) -> bool {
    (a <= v <= b) || (b <= v <= a)
}

/// Progress gained over `elapsed` microseconds of a transition lasting
/// `duration`, rounded up so that a transition ends on time.
pub open spec fn progress_step(elapsed: int, duration: int) -> int {
    if elapsed >= duration {
        SCALE as int
    } else {
        (elapsed * SCALE + duration - 1) / duration
    }
}

impl Animator {
    pub open spec fn wf(&self) -> bool {
        &&& self.config.wf()
        &&& self.progress <= SCALE
        &&& self.from.wf()
        &&& self.target.wf()
        &&& self.current == blend(self.from, self.target, smooth(self.progress as int))
    }

    /// Starts a transition toward `to` from the crop box shown now.
    pub open spec fn retarget_spec(self, to: Viewport) -> Animator {
        Animator { from: self.current, target: to, progress: 0, ..self }
    }

    /// The state after one window snapshot has been taken in.
    pub open spec fn observe_spec(self, w: WindowSnapshot) -> Animator {
        if outside_spec(w, self.config.region) {
            if self.target.zoom != SCALE && self.target.x != 0 && self.target.y != 0 {
                self.retarget_spec(Viewport::resting_spec())
            } else {
                self
            }
        } else {
            let v = framing_spec(
                w,
                self.config.region,
                self.config.padding as int,
                self.config.min_zoom as int,
            );
            if differs_spec(v, self.target) {
                self.retarget_spec(v)
            } else {
                self
            }
        }
    }

    /// The state after snapshots `ws` have been taken in, in order.
    pub open spec fn observe_all_spec(self, ws: Seq<WindowSnapshot>) -> Animator
        decreases ws.len(),
    {
        if ws.len() == 0 {
            self
        } else {
            self.observe_all_spec(ws.drop_last()).observe_spec(ws.last())
        }
    }

    /// The state after `elapsed` microseconds with no new snapshot.
    pub open spec fn advance_spec(self, elapsed: u64) -> Animator {
        let sum = self.progress + progress_step(elapsed as int, self.config.animation_time as int);
        let p = if sum > SCALE {
            SCALE as int
        } else {
            sum
        };
        Animator {
            progress: p as u64,
            current: blend(self.from, self.target, smooth(p)),
            ..self
        }
    }

    /// One frame: take in the snapshots that arrived, then let time pass.
    pub open spec fn tick_spec(self, ws: Seq<WindowSnapshot>, elapsed: u64) -> Animator {
        self.observe_all_spec(ws).advance_spec(elapsed)
    }
}

proof fn lemma_interp_bounds(a: int, b: int, k: int)
    requires
        0 <= a <= SCALE,
        0 <= b <= SCALE,
        0 <= k <= SCALE,
    ensures
        0 <= a * (SCALE - k) <= SCALE * SCALE,
        0 <= b * k <= SCALE * SCALE,
        between(interp(a, b, k), a, b),
        interp(a, b, 0) == a,
        interp(a, b, SCALE as int) == b,
{
    let s = SCALE as int;
    let lo = if a < b {
        a
    } else {
        b
    };
    let hi = if a < b {
        b
    } else {
        a
    };
    let n = a * (s - k) + b * k;
    assert(0 <= a * (1_000_000 - k) <= 1_000_000 * 1_000_000 && 0 <= b * k <= 1_000_000
        * 1_000_000 && lo * 1_000_000 <= a * (1_000_000 - k) + b * k <= hi * 1_000_000)
        by (nonlinear_arith)
        requires
            0 <= a <= 1_000_000,
            0 <= b <= 1_000_000,
            0 <= k <= 1_000_000,
            lo <= a <= hi,
            lo <= b <= hi,
    ;
    lemma_div_is_ordered(lo * s, n, s);
    lemma_div_is_ordered(n, hi * s, s);
    assert(lo * s / s == lo);
    assert(hi * s / s == hi);
    assert(a * (s - 0) + b * 0 == a * s) by (nonlinear_arith);
    assert(a * (s - s) + b * s == b * s) by (nonlinear_arith);
}

proof fn lemma_interp_sum(fx: int, fz: int, tx: int, tz: int, k: int)
    requires
        0 <= fx,
        0 <= fz,
        0 <= tx,
        0 <= tz,
        fx + fz <= SCALE,
        tx + tz <= SCALE,
        0 <= k <= SCALE,
    ensures
        interp(fx, tx, k) + interp(fz, tz, k) <= SCALE,
{
    let s = SCALE as int;
    let na = fx * (s - k) + tx * k;
    let nb = fz * (s - k) + tz * k;
    assert(na + nb <= 1_000_000 * 1_000_000) by (nonlinear_arith)
        requires
            na == fx * (1_000_000 - k) + tx * k,
            nb == fz * (1_000_000 - k) + tz * k,
            0 <= fx,
            0 <= fz,
            0 <= tx,
            0 <= tz,
            fx + fz <= 1_000_000,
            tx + tz <= 1_000_000,
            0 <= k <= 1_000_000,
    ;
    let qa = na / s;
    let qb = nb / s;
    assert(qa * s <= na);
    assert(qb * s <= nb);
    assert(qa + qb <= 1_000_000) by (nonlinear_arith)
        requires
            qa * 1_000_000 <= na,
            qb * 1_000_000 <= nb,
            na + nb <= 1_000_000 * 1_000_000,
    ;
}

/// A blend of two crop boxes lies inside the screen, each coordinate between
/// its two ends, and is exact at both ends.
pub proof fn lemma_blend(from: Viewport, to: Viewport, k: int)
    requires
        from.wf(),
        to.wf(),
        0 <= k <= SCALE,
    ensures
        blend(from, to, k).wf(),
        between(blend(from, to, k).x as int, from.x as int, to.x as int),
        between(blend(from, to, k).y as int, from.y as int, to.y as int),
        between(blend(from, to, k).zoom as int, from.zoom as int, to.zoom as int),
        blend(from, to, 0) == from,
        blend(from, to, SCALE as int) == to,
{
    lemma_interp_bounds(from.x as int, to.x as int, k);
    lemma_interp_bounds(from.y as int, to.y as int, k);
    lemma_interp_bounds(from.zoom as int, to.zoom as int, k);
    lemma_interp_sum(from.x as int, from.zoom as int, to.x as int, to.zoom as int, k);
    lemma_interp_sum(from.y as int, from.zoom as int, to.y as int, to.zoom as int, k);
}

fn interpolate(a: u64, b: u64, k: u64) -> (r: u64)
    requires
        a <= SCALE,
        b <= SCALE,
        k <= SCALE,
    ensures
        r == interp(a as int, b as int, k as int),
{
    proof {
        lemma_interp_bounds(a as int, b as int, k as int);
    }
    (a * (SCALE - k) + b * k) / SCALE
}

fn blend_viewports(from: &Viewport, to: &Viewport, k: u64) -> (r: Viewport)
    requires
        from.wf(),
        to.wf(),
        k <= SCALE,
    ensures
        r == blend(*from, *to, k as int),
        r.wf(),
{
    proof {
        lemma_blend(*from, *to, k as int);
    }
    Viewport {
        x: interpolate(from.x, to.x, k),
        y: interpolate(from.y, to.y, k),
        zoom: interpolate(from.zoom, to.zoom, k),
    }
}

proof fn lemma_step_bounds(e: int, d: int)
    requires
        0 <= e,
        0 < d,
    ensures
        0 <= progress_step(e, d) <= SCALE,
        e < d ==> progress_step(e, d) * d >= e * SCALE,
{
    if e < d {
        let s = SCALE as int;
        let n = e * s + d - 1;
        assert(0 <= e * 1_000_000 <= (d - 1) * 1_000_000) by (nonlinear_arith)
            requires
                0 <= e < d,
        ;
        let q = n / d;
        lemma_fundamental_div_mod(n, d);
        lemma_mod_pos_bound(n, d);
        assert(d * q == q * d) by (nonlinear_arith);
        assert(0 <= q <= 1_000_000) by (nonlinear_arith)
            requires
                q * d <= n,
                n - d < q * d,
                0 <= n <= (d - 1) * 1_000_000 + d - 1,
                0 < d,
        ;
    }
}

/// Progress gained over `elapsed` microseconds of a transition lasting `duration`.
pub fn progress_gain(elapsed: u64, duration: u64) -> (r: u64)
    requires
        duration > 0,
    ensures
        r == progress_step(elapsed as int, duration as int),
        r <= SCALE,
{
    proof {
        lemma_step_bounds(elapsed as int, duration as int);
    }
    if elapsed >= duration {
        SCALE
    } else {
        assert(elapsed * SCALE <= u64::MAX * SCALE) by (nonlinear_arith)
            requires
                elapsed <= u64::MAX,
        ;
        let n: u128 = elapsed as u128 * SCALE as u128 + duration as u128 - 1;
        (n / duration as u128) as u64
    }
}

impl Animator {
    /// An animator at rest: the whole screen at the configured zoom bound.
    pub fn new(config: Config) -> (r: Animator)
        requires
            config.wf(),
        ensures
            r.wf(),
            r.config == config,
            r.current == (Viewport { x: 0, y: 0, zoom: config.min_zoom }),
            r.from == r.current,
            r.target == r.current,
            r.progress == SCALE,
    {
        let v = Viewport { x: 0, y: 0, zoom: config.min_zoom };
        proof {
            lemma_blend(v, v, SCALE as int);
            lemma_smooth_range(SCALE as int);
        }
        Animator { config, current: v, from: v, target: v, progress: SCALE }
    }

    fn retarget(&mut self, to: Viewport)
        requires
            old(self).wf(),
            to.wf(),
        ensures
            *final(self) == old(self).retarget_spec(to),
            final(self).wf(),
    {
        proof {
            lemma_smooth_range(self.progress as int);
            lemma_blend(self.from, self.target, smooth(self.progress as int));
            lemma_smooth_range(0);
            lemma_blend(self.current, to, 0);
        }
        self.from = self.current;
        self.target = to;
        self.progress = 0;
    }

    /// Takes in one window snapshot, possibly starting a new transition.
    pub fn observe(&mut self, w: &WindowSnapshot)
        requires
            old(self).wf(),
        ensures
            *final(self) == old(self).observe_spec(*w),
            final(self).wf(),
    {
        if is_outside(w, &self.config.region) {
            if self.target.zoom != SCALE && self.target.x != 0 && self.target.y != 0 {
                self.retarget(Viewport::resting());
            }
        } else {
            let v = framing(w, &self.config.region, self.config.padding, self.config.min_zoom);
            if differs(&v, &self.target) {
                self.retarget(v);
            }
        }
    }

    /// Lets `elapsed` microseconds pass with no new snapshot.
    pub fn advance(&mut self, elapsed: u64)
        requires
            old(self).wf(),
        ensures
            *final(self) == old(self).advance_spec(elapsed),
            final(self).wf(),
    {
        let step = progress_gain(elapsed, self.config.animation_time);
        let sum = self.progress + step;
        let p = if sum > SCALE {
            SCALE
        } else {
            sum
        };
        let k = smooth_step(p);
        self.progress = p;
        self.current = blend_viewports(&self.from, &self.target, k);
    }

    /// One frame: takes in the snapshots that arrived since the last frame,
    /// in order, then lets `elapsed` microseconds pass.
    pub fn tick(&mut self, snapshots: &Vec<WindowSnapshot>, elapsed: u64)
        requires
            old(self).wf(),
        ensures
            *final(self) == old(self).tick_spec(snapshots@, elapsed),
            final(self).wf(),
    {
        let ghost start = *self;
        let mut i: usize = 0;
        while i < snapshots.len()
            invariant
                i <= snapshots@.len(),
                self.wf(),
                *self == start.observe_all_spec(snapshots@.take(i as int)),
            decreases snapshots@.len() - i,
        {
            proof {
                let t = snapshots@.take(i as int + 1);
                assert(t.drop_last() == snapshots@.take(i as int));
                assert(t.last() == snapshots@[i as int]);
            }
            self.observe(&snapshots[i]);
            i += 1;
        }
        assert(snapshots@.take(snapshots@.len() as int) == snapshots@);
        self.advance(elapsed);
    }

    /// The crop box to show this frame.
    pub fn current(&self) -> (r: Viewport)
        ensures
            r == self.current,
    {
        self.current
    }

    /// The crop box the active transition is headed to.
    pub fn target(&self) -> (r: Viewport)
        ensures
            r == self.target,
    {
        self.target
    }

    /// Share of the active transition already done, in units of `1 / SCALE`.
    pub fn progress(&self) -> (r: u64)
        ensures
            r == self.progress,
    {
        self.progress
    }
}

/// Total time, in microseconds, of a run of frames.
pub open spec fn total_time(ticks: Seq<u64>) -> int
    decreases ticks.len(),
{
    if ticks.len() == 0 {
        0
    } else {
        total_time(ticks.drop_last()) + ticks.last()
    }
}

impl Animator {
    /// The state after frames lasting `ticks` with no new snapshot.
    pub open spec fn run_spec(self, ticks: Seq<u64>) -> Animator
        decreases ticks.len(),
    {
        if ticks.len() == 0 {
            self
        } else {
            self.run_spec(ticks.drop_last()).advance_spec(ticks.last())
        }
    }
}

proof fn lemma_current_wf(s: Animator)
    requires
        s.wf(),
    ensures
        s.current.wf(),
{
    lemma_smooth_range(s.progress as int);
    lemma_blend(s.from, s.target, smooth(s.progress as int));
}

proof fn lemma_advance(s: Animator, e: u64)
    requires
        s.wf(),
    ensures
        s.advance_spec(e).wf(),
        s.advance_spec(e).from == s.from,
        s.advance_spec(e).target == s.target,
        s.advance_spec(e).config == s.config,
        s.advance_spec(e).progress >= s.progress,
        s.advance_spec(e).progress < SCALE ==> e < s.config.animation_time
            && s.advance_spec(e).progress == s.progress + progress_step(
            e as int,
            s.config.animation_time as int,
        ),
{
    lemma_step_bounds(e as int, s.config.animation_time as int);
    let p = s.advance_spec(e).progress;
    lemma_smooth_range(p as int);
    lemma_blend(s.from, s.target, smooth(p as int));
}

proof fn lemma_run(s: Animator, ticks: Seq<u64>)
    requires
        s.wf(),
    ensures
        s.run_spec(ticks).wf(),
        s.run_spec(ticks).from == s.from,
        s.run_spec(ticks).target == s.target,
        s.run_spec(ticks).config == s.config,
        total_time(ticks) >= 0,
        s.run_spec(ticks).progress * s.config.animation_time >= if total_time(ticks) * SCALE
            < SCALE * s.config.animation_time {
            total_time(ticks) * SCALE
        } else {
            SCALE * s.config.animation_time
        },
    decreases ticks.len(),
{
    let a = s.config.animation_time as int;
    if ticks.len() == 0 {
        assert(s.progress * a >= 0) by (nonlinear_arith)
            requires
                a > 0,
        ;
    } else {
        let init = ticks.drop_last();
        let e = ticks.last();
        lemma_run(s, init);
        let r = s.run_spec(init);
        lemma_advance(r, e);
        lemma_step_bounds(e as int, a);
        let t = total_time(init);
        let p = r.progress as int;
        let q = r.advance_spec(e).progress as int;
        if q < SCALE {
            let st = progress_step(e as int, a);
            assert(q * a >= (if (t + e) * 1_000_000 < 1_000_000 * a {
                (t + e) * 1_000_000
            } else {
                1_000_000 * a
            })) by (nonlinear_arith)
                requires
                    q == p + st,
                    st * a >= e * 1_000_000,
                    p * a >= (if t * 1_000_000 < 1_000_000 * a {
                        t * 1_000_000
                    } else {
                        1_000_000 * a
                    }),
                    e >= 0,
            ;
        } else {
            assert(q * a >= (if (t + e) * 1_000_000 < 1_000_000 * a {
                (t + e) * 1_000_000
            } else {
                1_000_000 * a
            })) by (nonlinear_arith)
                requires
                    q == 1_000_000,
                    a > 0,
            ;
        }
    }
}

/// Frames with no new snapshot never carry the shown crop box past either
/// end of the transition, and once the frames add up to the transition's
/// length it shows exactly the target.
pub proof fn lemma_settles(s: Animator, ticks: Seq<u64>)
    requires
        s.wf(),
    ensures
        s.run_spec(ticks).wf(),
        s.run_spec(ticks).target == s.target,
        between(s.run_spec(ticks).current.x as int, s.from.x as int, s.target.x as int),
        between(s.run_spec(ticks).current.y as int, s.from.y as int, s.target.y as int),
        between(
            s.run_spec(ticks).current.zoom as int,
            s.from.zoom as int,
            s.target.zoom as int,
        ),
        total_time(ticks) >= s.config.animation_time ==> s.run_spec(ticks).progress == SCALE
            && s.run_spec(ticks).current == s.target,
{
    lemma_run(s, ticks);
    let r = s.run_spec(ticks);
    let a = s.config.animation_time as int;
    lemma_smooth_range(r.progress as int);
    lemma_blend(s.from, s.target, smooth(r.progress as int));
    if total_time(ticks) >= a {
        let t = total_time(ticks);
        let p = r.progress as int;
        assert(p >= 1_000_000) by (nonlinear_arith)
            requires
                t >= a,
                a > 0,
                p * a >= (if t * 1_000_000 < 1_000_000 * a {
                    t * 1_000_000
                } else {
                    1_000_000 * a
                }),
        ;
    }
}

proof fn lemma_interp_monotone(a: int, b: int, k1: int, k2: int)
    requires
        0 <= a <= SCALE,
        0 <= b <= SCALE,
        0 <= k1 <= k2 <= SCALE,
    ensures
        between(interp(a, b, k2), interp(a, b, k1), b),
{
    let s = SCALE as int;
    let n1 = a * (s - k1) + b * k1;
    let n2 = a * (s - k2) + b * k2;
    if a <= b {
        assert(n1 <= n2 <= b * 1_000_000) by (nonlinear_arith)
            requires
                n1 == a * (1_000_000 - k1) + b * k1,
                n2 == a * (1_000_000 - k2) + b * k2,
                0 <= a <= b,
                0 <= k1 <= k2 <= 1_000_000,
        ;
        lemma_div_is_ordered(n1, n2, s);
        lemma_div_is_ordered(n2, b * s, s);
    } else {
        assert(b * 1_000_000 <= n2 <= n1) by (nonlinear_arith)
            requires
                n1 == a * (1_000_000 - k1) + b * k1,
                n2 == a * (1_000_000 - k2) + b * k2,
                0 <= b < a,
                0 <= k1 <= k2 <= 1_000_000,
        ;
        lemma_div_is_ordered(n2, n1, s);
        lemma_div_is_ordered(b * s, n2, s);
    }
    assert(b * s / s == b);
}

/// One frame with no new snapshot moves each coordinate of the shown crop
/// box toward the target, never away from it and never past it.
pub proof fn lemma_approaches(s: Animator, elapsed: u64)
    requires
        s.wf(),
    ensures
        s.advance_spec(elapsed).target == s.target,
        between(s.advance_spec(elapsed).current.x as int, s.current.x as int, s.target.x as int),
        between(s.advance_spec(elapsed).current.y as int, s.current.y as int, s.target.y as int),
        between(
            s.advance_spec(elapsed).current.zoom as int,
            s.current.zoom as int,
            s.target.zoom as int,
        ),
{
    lemma_advance(s, elapsed);
    let p = s.progress as int;
    let q = s.advance_spec(elapsed).progress as int;
    lemma_smooth_range(p);
    lemma_smooth_range(q);
    lemma_smooth_monotone(p, q);
    let k1 = smooth(p);
    let k2 = smooth(q);
    lemma_interp_monotone(s.from.x as int, s.target.x as int, k1, k2);
    lemma_interp_monotone(s.from.y as int, s.target.y as int, k1, k2);
    lemma_interp_monotone(s.from.zoom as int, s.target.zoom as int, k1, k2);
    lemma_blend(s.from, s.target, k1);
    lemma_blend(s.from, s.target, k2);
    lemma_interp_bounds(s.from.x as int, s.target.x as int, k1);
    lemma_interp_bounds(s.from.y as int, s.target.y as int, k1);
    lemma_interp_bounds(s.from.zoom as int, s.target.zoom as int, k1);
    let c1 = blend(s.from, s.target, k1);
    let c2 = blend(s.from, s.target, k2);
    assert(s.current == c1);
    assert(s.advance_spec(elapsed).current == c2);
    assert(c1.x as int == interp(s.from.x as int, s.target.x as int, k1));
    assert(c2.x as int == interp(s.from.x as int, s.target.x as int, k2));
    assert(c1.y as int == interp(s.from.y as int, s.target.y as int, k1));
    assert(c2.y as int == interp(s.from.y as int, s.target.y as int, k2));
}

/// Across a run of frames with no new snapshot, the distance from the shown
/// crop box to the target never grows from one frame to the next, on any
/// coordinate.
pub proof fn lemma_frames_approach(s: Animator, ticks: Seq<u64>)
    requires
        s.wf(),
    ensures
        forall|i: int|
            0 <= i < ticks.len() ==> {
                let before = #[trigger] s.run_spec(ticks.take(i));
                let after = s.run_spec(ticks.take(i + 1));
                &&& between(after.current.x as int, before.current.x as int, s.target.x as int)
                &&& between(after.current.y as int, before.current.y as int, s.target.y as int)
                &&& between(
                    after.current.zoom as int,
                    before.current.zoom as int,
                    s.target.zoom as int,
                )
            },
{
    assert forall|i: int| 0 <= i < ticks.len() implies {
        let before = #[trigger] s.run_spec(ticks.take(i));
        let after = s.run_spec(ticks.take(i + 1));
        &&& between(after.current.x as int, before.current.x as int, s.target.x as int)
        &&& between(after.current.y as int, before.current.y as int, s.target.y as int)
        &&& between(after.current.zoom as int, before.current.zoom as int, s.target.zoom as int)
    } by {
        let t = ticks.take(i + 1);
        assert(t.drop_last() =~= ticks.take(i));
        assert(t.last() == ticks[i]);
        lemma_run(s, ticks.take(i));
        lemma_approaches(s.run_spec(ticks.take(i)), ticks[i]);
    }
}

/// Starting a transition keeps the shown crop box where it was: the new
/// transition begins from it, at zero progress.
pub proof fn lemma_retarget_continuous(s: Animator, to: Viewport)
    requires
        s.wf(),
        to.wf(),
    ensures
        s.retarget_spec(to).wf(),
        s.retarget_spec(to).current == s.current,
        s.retarget_spec(to).from == s.current,
        blend(s.retarget_spec(to).from, to, smooth(0)) == s.current,
{
    lemma_current_wf(s);
    lemma_smooth_range(0);
    lemma_blend(s.current, to, 0);
}

/// Taking in a snapshot never moves the shown crop box.
pub proof fn lemma_observe_continuous(s: Animator, w: WindowSnapshot)
    requires
        s.wf(),
    ensures
        s.observe_spec(w).wf(),
        s.observe_spec(w).current == s.current,
        s.observe_spec(w).config == s.config,
{
    lemma_current_wf(s);
    if outside_spec(w, s.config.region) {
        lemma_retarget_continuous(s, Viewport::resting_spec());
    } else {
        lemma_framing_wf(w, s.config.region, s.config.padding as int, s.config.min_zoom as int);
        let v = framing_spec(w, s.config.region, s.config.padding as int, s.config.min_zoom as int);
        lemma_retarget_continuous(s, v);
    }
}

/// Taking in the same snapshot twice leaves the same state as taking it in
/// once, also within one frame.
pub proof fn lemma_observe_idempotent(s: Animator, w: WindowSnapshot, elapsed: u64)
    requires
        s.wf(),
    ensures
        s.observe_spec(w).observe_spec(w) == s.observe_spec(w),
        s.tick_spec(seq![w, w], elapsed) == s.tick_spec(seq![w], elapsed),
{
    lemma_observe_continuous(s, w);
    let one = seq![w];
    let two = seq![w, w];
    assert(two.drop_last() =~= one);
    assert(one.drop_last() =~= Seq::<WindowSnapshot>::empty());
    assert(s.observe_all_spec(Seq::<WindowSnapshot>::empty()) == s);
    assert(one.last() == w);
    assert(two.last() == w);
    assert(s.observe_all_spec(one) == s.observe_spec(w));
    assert(s.observe_all_spec(two) == s.observe_spec(w).observe_spec(w));
}

/// A snapshot outside the region sends an active zoomed-in target back to
/// rest, and while the window stays outside no further snapshot changes
/// anything.
pub proof fn lemma_leaving_region(s: Animator, w: WindowSnapshot, later: WindowSnapshot)
    requires
        s.wf(),
        outside_spec(w, s.config.region),
        outside_spec(later, s.config.region),
    ensures
        s.target.zoom != SCALE && s.target.x != 0 && s.target.y != 0 ==> s.observe_spec(w).target
            == Viewport::resting_spec() && s.observe_spec(w).progress == 0,
        s.observe_spec(w).observe_spec(later) == s.observe_spec(w),
{
}

} // verus!
