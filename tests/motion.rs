use scroll_focus_filter::animator::{progress_gain, Animator, Config};
use scroll_focus_filter::easing::{smooth_step, SCALE};
use scroll_focus_filter::geometry::{
    clamp_offset, clamp_zoom, differs, framing, is_outside, ScreenRegion, Viewport,
    WindowSnapshot,
};

fn full_hd() -> ScreenRegion {
    ScreenRegion { x: 0, y: 0, width: 1920, height: 1080 }
}

fn config(min_zoom: u64, padding: u64, animation_time: u64) -> Config {
    Config { region: full_hd(), padding, min_zoom, animation_time }
}

fn snap(x: i32, y: i32, width: u32, height: u32) -> WindowSnapshot {
    WindowSnapshot { x, y, width, height }
}

#[test]
fn smooth_step_fixes_both_ends_and_middle() {
    assert_eq!(smooth_step(0), 0);
    assert_eq!(smooth_step(SCALE), SCALE);
    assert_eq!(smooth_step(SCALE / 2), SCALE / 2);
    assert_eq!(smooth_step(5 * SCALE), SCALE);
}

#[test]
fn smooth_step_stays_in_range_and_never_decreases() {
    let mut last = 0;
    let mut t = 0;
    while t <= SCALE {
        let v = smooth_step(t);
        assert!(v <= SCALE);
        assert!(v >= last);
        last = v;
        t += 12_345;
    }
    // a quarter of the way: 0.25^2 * (3 - 0.5) = 0.15625
    assert_eq!(smooth_step(SCALE / 4), 156_250);
}

#[test]
fn progress_gain_rounds_up_and_saturates() {
    assert_eq!(progress_gain(150_000, 300_000), 500_000);
    assert_eq!(progress_gain(1, 3), 333_334);
    assert_eq!(progress_gain(0, 300_000), 0);
    assert_eq!(progress_gain(300_000, 300_000), SCALE);
    assert_eq!(progress_gain(u64::MAX, 300_000), SCALE);
}

#[test]
fn clamps_bound_zoom_and_offset() {
    assert_eq!(clamp_zoom(100_000, 500_000), 500_000);
    assert_eq!(clamp_zoom(1_700_000, 500_000), SCALE);
    assert_eq!(clamp_zoom(700_000, 500_000), 700_000);
    assert_eq!(clamp_offset(875_000, 500_000), 500_000);
    assert_eq!(clamp_offset(100_000, 500_000), 0);
    assert_eq!(clamp_offset(500_000, 400_000), 300_000);
}

#[test]
fn outside_checks_the_top_left_corner() {
    let r = full_hd();
    assert!(!is_outside(&snap(0, 0, 10, 10), &r));
    assert!(!is_outside(&snap(1920, 1080, 10, 10), &r));
    assert!(is_outside(&snap(1921, 0, 10, 10), &r));
    assert!(is_outside(&snap(-1, 0, 10, 10), &r));
    assert!(is_outside(&snap(0, 1081, 10, 10), &r));
    let shifted = ScreenRegion { x: 100, y: 50, width: 800, height: 600 };
    assert!(is_outside(&snap(99, 60, 10, 10), &shifted));
    assert!(is_outside(&snap(120, 49, 10, 10), &shifted));
    assert!(!is_outside(&snap(900, 650, 10, 10), &shifted));
}

#[test]
fn framing_centres_the_window() {
    let v = framing(&snap(1440, 810, 480, 270), &full_hd(), 0, 500_000);
    assert_eq!(v, Viewport { x: 500_000, y: 500_000, zoom: 500_000 });
    let v = framing(&snap(480, 270, 960, 540), &full_hd(), 100_000, 200_000);
    assert_eq!(v, Viewport { x: 200_000, y: 200_000, zoom: 600_000 });
    let shifted = ScreenRegion { x: 1920, y: 0, width: 1920, height: 1080 };
    let v = framing(&snap(1920, 0, 480, 270), &shifted, 0, 200_000);
    assert_eq!(v, Viewport { x: 0, y: 0, zoom: 250_000 });
}

#[test]
fn differs_respects_the_tolerance() {
    let a = Viewport { x: 100_000, y: 100_000, zoom: 500_000 };
    assert!(!differs(&a, &Viewport { x: 101_000, y: 99_000, zoom: 501_000 }));
    assert!(differs(&a, &Viewport { x: 101_001, y: 100_000, zoom: 500_000 }));
    assert!(differs(&a, &Viewport { x: 100_000, y: 98_999, zoom: 500_000 }));
    assert!(differs(&a, &Viewport { x: 100_000, y: 100_000, zoom: 501_001 }));
}

#[test]
fn new_animator_rests_at_the_zoom_bound() {
    let a = Animator::new(config(500_000, 0, 300_000));
    let rest = Viewport { x: 0, y: 0, zoom: 500_000 };
    assert_eq!(a.current(), rest);
    assert_eq!(a.target(), rest);
    assert_eq!(a.progress(), SCALE);
}

#[test]
fn half_screen_window_without_zoom_starts_nothing() {
    let mut a = Animator::new(config(SCALE, 0, 300_000));
    a.observe(&snap(0, 0, 960, 540));
    assert_eq!(a.target(), Viewport { x: 0, y: 0, zoom: SCALE });
    assert_eq!(a.progress(), SCALE);
    assert_eq!(a.current(), Viewport { x: 0, y: 0, zoom: SCALE });
}

#[test]
fn corner_window_at_double_zoom_is_reached() {
    let mut a = Animator::new(config(500_000, 0, 300_000));
    a.tick(&vec![snap(1440, 810, 480, 270)], 0);
    let goal = Viewport { x: 500_000, y: 500_000, zoom: 500_000 };
    assert_eq!(a.target(), goal);
    assert_eq!(a.progress(), 0);
    assert_eq!(a.current(), Viewport { x: 0, y: 0, zoom: 500_000 });
    a.tick(&vec![], 100_000);
    a.tick(&vec![], 100_000);
    a.tick(&vec![], 100_000);
    assert_eq!(a.progress(), SCALE);
    assert_eq!(a.current(), goal);
}

#[test]
fn leaving_the_region_resets_once() {
    let mut a = Animator::new(config(500_000, 0, 300_000));
    a.tick(&vec![snap(1440, 810, 480, 270)], 300_000);
    a.observe(&snap(2500, 100, 300, 300));
    assert_eq!(a.target(), Viewport { x: 0, y: 0, zoom: SCALE });
    assert_eq!(a.progress(), 0);
    assert_eq!(a.from, Viewport { x: 500_000, y: 500_000, zoom: 500_000 });
    a.tick(&vec![], 50_000);
    let before = a;
    a.observe(&snap(2500, 100, 300, 300));
    a.observe(&snap(3000, 900, 300, 300));
    assert_eq!(a.target(), before.target());
    assert_eq!(a.from, before.from);
    assert_eq!(a.progress(), before.progress());
    assert_eq!(a.current(), before.current());
}

#[test]
fn leaving_the_region_keeps_a_target_on_an_edge() {
    // The reset applies only to a target with zoom, x and y all away from
    // their resting values; a target on the left edge stays put.
    let mut a = Animator::new(config(500_000, 0, 300_000));
    a.tick(&vec![snap(0, 810, 480, 270)], 300_000);
    assert_eq!(a.target(), Viewport { x: 0, y: 500_000, zoom: 500_000 });
    a.observe(&snap(2500, 100, 300, 300));
    assert_eq!(a.target(), Viewport { x: 0, y: 500_000, zoom: 500_000 });
    assert_eq!(a.progress(), SCALE);
}

#[test]
fn half_and_full_transition_time() {
    let mut a = Animator::new(config(500_000, 0, 300_000));
    a.observe(&snap(1440, 810, 480, 270));
    a.tick(&vec![], 150_000);
    assert_eq!(a.progress(), 500_000);
    assert_eq!(a.current(), Viewport { x: 250_000, y: 250_000, zoom: 500_000 });
    a.tick(&vec![], 150_000);
    assert_eq!(a.progress(), SCALE);
    assert_eq!(a.current(), a.target());
}

#[test]
fn sixty_hertz_frames_settle_on_time_without_overshoot() {
    let mut a = Animator::new(config(500_000, 0, 300_000));
    a.observe(&snap(1440, 810, 480, 270));
    let mut last = a.current();
    let mut total: u64 = 0;
    while total < 300_000 {
        a.tick(&vec![], 16_667);
        total += 16_667;
        let c = a.current();
        assert!(c.x >= last.x && c.x <= 500_000);
        assert!(c.y >= last.y && c.y <= 500_000);
        assert_eq!(c.zoom, 500_000);
        last = c;
    }
    assert_eq!(a.current(), a.target());
}

#[test]
fn new_target_mid_transition_does_not_jump() {
    let mut a = Animator::new(config(500_000, 0, 300_000));
    a.observe(&snap(1440, 810, 480, 270));
    a.tick(&vec![], 100_000);
    let shown = a.current();
    a.observe(&snap(0, 0, 480, 270));
    assert_eq!(a.current(), shown);
    assert_eq!(a.from, shown);
    assert_eq!(a.progress(), 0);
    assert_eq!(a.target(), Viewport { x: 0, y: 0, zoom: 500_000 });
    a.tick(&vec![], 0);
    assert_eq!(a.current(), shown);
}

#[test]
fn same_snapshot_twice_is_taken_once() {
    let w = snap(1440, 810, 480, 270);
    let mut once = Animator::new(config(500_000, 0, 300_000));
    once.tick(&vec![w], 100_000);
    let mut twice = Animator::new(config(500_000, 0, 300_000));
    twice.tick(&vec![w, w], 100_000);
    assert_eq!(once.target(), twice.target());
    assert_eq!(once.current(), twice.current());
    assert_eq!(once.progress(), twice.progress());
}

#[test]
fn small_wobble_does_not_restart() {
    let mut a = Animator::new(config(500_000, 0, 300_000));
    a.tick(&vec![snap(1440, 810, 480, 270)], 200_000);
    let p = a.progress();
    a.observe(&snap(1441, 811, 480, 270));
    assert_eq!(a.progress(), p);
    assert_eq!(a.target(), Viewport { x: 500_000, y: 500_000, zoom: 500_000 });
}

#[test]
fn last_snapshot_of_a_frame_wins() {
    let mut a = Animator::new(config(500_000, 0, 300_000));
    a.tick(&vec![snap(1440, 810, 480, 270), snap(0, 0, 480, 270)], 0);
    assert_eq!(a.target(), Viewport { x: 0, y: 0, zoom: 500_000 });
}

#[test]
fn distance_to_target_never_grows_between_frames() {
    let mut a = Animator::new(config(500_000, 0, 1_000_000));
    a.tick(&vec![snap(1440, 810, 480, 270)], 0);
    a.tick(&vec![], 400_000);
    a.observe(&snap(0, 0, 1920, 1080));
    let goal = a.target();
    assert_eq!(goal, Viewport { x: 0, y: 0, zoom: SCALE });
    let mut last = a.current();
    for _ in 0..40 {
        a.tick(&vec![], 33_333);
        let c = a.current();
        assert!(c.x <= last.x && c.y <= last.y);
        assert!(c.zoom >= last.zoom && c.zoom <= goal.zoom);
        last = c;
    }
    assert_eq!(a.current(), goal);
}
