use scroll_focus_filter::animator::{Animator, Config};
use scroll_focus_filter::channel::connect;
use scroll_focus_filter::easing::SCALE;
use scroll_focus_filter::filter::FocusFilter;
use scroll_focus_filter::geometry::{ScreenRegion, Viewport, WindowSnapshot};
use scroll_focus_filter::settings::{
    animation_time_of, min_zoom_of, padding_of, screen_coord, screen_extent, Settings,
};

fn empty() -> Settings {
    Settings {
        zoom: None,
        screen_x: None,
        screen_y: None,
        screen_width: None,
        screen_height: None,
        padding: None,
        animation_time: None,
    }
}

#[test]
fn settings_are_bounded() {
    assert_eq!(screen_coord(-5), 0);
    assert_eq!(screen_coord(20_000), 11_520);
    assert_eq!(screen_coord(640), 640);
    assert_eq!(screen_extent(0), 1);
    assert_eq!(screen_extent(20_000), 11_520);
    assert_eq!(padding_of(900_000), 500_000);
    assert_eq!(padding_of(50_000), 50_000);
    assert_eq!(animation_time_of(0), 300_000);
    assert_eq!(animation_time_of(60_000_000), 10_000_000);
    assert_eq!(animation_time_of(1_000_000), 1_000_000);
}

#[test]
fn zoom_factor_becomes_its_reciprocal() {
    assert_eq!(min_zoom_of(SCALE), SCALE);
    assert_eq!(min_zoom_of(2 * SCALE), 500_000);
    assert_eq!(min_zoom_of(4 * SCALE), 250_000);
    assert_eq!(min_zoom_of(10 * SCALE), 200_000);
    assert_eq!(min_zoom_of(0), SCALE);
}

#[test]
fn defaults_fill_what_is_not_set() {
    let c = Config::from_settings(&empty());
    assert_eq!(c.region, ScreenRegion { x: 0, y: 0, width: 1920, height: 1080 });
    assert_eq!(c.padding, 100_000);
    assert_eq!(c.min_zoom, SCALE);
    assert_eq!(c.animation_time, 300_000);
    let mut s = empty();
    s.zoom = Some(2 * SCALE);
    s.screen_x = Some(1920);
    s.screen_width = Some(2560);
    s.animation_time = Some(500_000);
    let c = Config::from_settings(&s);
    assert_eq!(c.region, ScreenRegion { x: 1920, y: 0, width: 2560, height: 1080 });
    assert_eq!(c.min_zoom, 500_000);
    assert_eq!(c.animation_time, 500_000);
}

#[test]
fn new_zoom_setting_starts_a_transition_inside_the_screen() {
    let mut s = empty();
    s.zoom = Some(2 * SCALE);
    s.padding = Some(0);
    let mut a = Animator::new(Config::from_settings(&s));
    a.tick(&vec![WindowSnapshot { x: 1440, y: 810, width: 480, height: 270 }], 300_000);
    assert_eq!(a.current(), Viewport { x: 500_000, y: 500_000, zoom: 500_000 });
    let mut change = empty();
    change.zoom = Some(SCALE * 5 / 4);
    a.configure(&change);
    assert_eq!(a.config.min_zoom, 800_000);
    assert_eq!(a.target(), Viewport { x: 200_000, y: 200_000, zoom: 800_000 });
    assert_eq!(a.from, Viewport { x: 500_000, y: 500_000, zoom: 500_000 });
    assert_eq!(a.current(), a.from);
    assert_eq!(a.progress(), 0);
}

#[test]
fn other_settings_leave_the_motion_alone() {
    let mut a = Animator::new(Config::from_settings(&empty()));
    let before = a;
    let mut change = empty();
    change.padding = Some(200_000);
    change.screen_height = Some(1440);
    a.configure(&change);
    assert_eq!(a.config.padding, 200_000);
    assert_eq!(a.config.region.height, 1440);
    assert_eq!(a.current(), before.current());
    assert_eq!(a.target(), before.target());
    assert_eq!(a.progress(), before.progress());
}

#[test]
fn link_carries_snapshots_in_order() {
    let (filter_end, server_end) = connect();
    assert!(filter_end.drain().is_empty());
    let a = WindowSnapshot { x: 1, y: 2, width: 3, height: 4 };
    let b = WindowSnapshot { x: 5, y: 6, width: 7, height: 8 };
    server_end.publish(a);
    server_end.publish(b);
    assert_eq!(filter_end.drain(), vec![a, b]);
    assert!(filter_end.drain().is_empty());
}

#[test]
fn link_carries_the_close_request() {
    let (filter_end, server_end) = connect();
    assert!(!server_end.close_requested());
    filter_end.close();
    assert!(server_end.close_requested());
    assert!(!server_end.close_requested());
}

#[test]
fn closing_after_the_producer_left_is_quiet() {
    let (filter_end, server_end) = connect();
    drop(server_end);
    filter_end.close();
    assert!(filter_end.drain().is_empty());
}

#[test]
fn filter_follows_published_snapshots() {
    let mut s = empty();
    s.zoom = Some(2 * SCALE);
    s.padding = Some(0);
    let (mut f, server) = FocusFilter::create(&s);
    assert_eq!(f.render_params(), ((0, 0), (500_000, 500_000)));
    server.publish(WindowSnapshot { x: 1440, y: 810, width: 480, height: 270 });
    f.video_tick(150_000);
    assert_eq!(f.animator.target(), Viewport { x: 500_000, y: 500_000, zoom: 500_000 });
    assert_eq!(f.render_params(), ((250_000, 250_000), (500_000, 500_000)));
    f.video_tick(150_000);
    assert_eq!(f.render_params(), ((500_000, 500_000), (500_000, 500_000)));
    f.close();
    assert!(server.close_requested());
}

#[test]
fn filter_update_takes_new_settings() {
    let (mut f, _server) = FocusFilter::create(&empty());
    let mut change = empty();
    change.animation_time = Some(1_000_000);
    f.update(&change);
    assert_eq!(f.animator.config.animation_time, 1_000_000);
}

#[test]
fn update_keeps_what_it_leaves_out() {
    let c = Config {
        region: ScreenRegion { x: 20_000, y: 7, width: 30_000, height: 5 },
        padding: 900_000,
        min_zoom: 400_000,
        animation_time: 100,
    };
    let mut a = Animator::new(c);
    a.configure(&empty());
    assert_eq!(a.config, c);
    let mut change = empty();
    change.screen_y = Some(50_000);
    a.configure(&change);
    assert_eq!(a.config.region, ScreenRegion { x: 20_000, y: 11_520, width: 30_000, height: 5 });
    assert_eq!(a.config.padding, 900_000);
    assert_eq!(a.config.animation_time, 100);
}

#[test]
fn created_filter_has_no_transition_under_way() {
    let (f, _server) = FocusFilter::create(&empty());
    assert_eq!(f.animator.progress(), SCALE);
    assert_eq!(f.animator.current(), f.animator.target());
}
