//! One filter instance: an animator fed from its end of the link, once per
//! frame.
use vstd::prelude::*;
use crate::animator::{Animator, Config};
use crate::channel::{FilterLink, ServerLink, connect};
use crate::settings::Settings;

verus! {

pub struct FocusFilter {
    pub animator: Animator,
    pub link: FilterLink,
}

impl FocusFilter {
    pub open spec fn wf(&self) -> bool {
        self.animator.wf()
    }

    /// A filter at rest under `settings`, and the end of its link that the
    /// snapshot producer is to hold.
    pub fn create(settings: &Settings) -> (r: (FocusFilter, ServerLink))
        ensures
            r.0.wf(),
            r.0.animator.config == Config::default_spec().merge_spec(*settings),
            r.0.animator.from == r.0.animator.current,
            r.0.animator.target == r.0.animator.current,
            r.0.animator.current.x == 0,
            r.0.animator.current.y == 0,
            r.0.animator.current.zoom == r.0.animator.config.min_zoom,
            r.0.animator.progress == crate::easing::SCALE,
    {
        let config = Config::from_settings(settings);
        let (link, server) = connect();
        (FocusFilter { animator: Animator::new(config), link }, server)
    }

    /// One frame: takes in whatever snapshots are queued, in order, then lets
    /// `elapsed` microseconds pass. Never blocks.
    pub fn video_tick(&mut self, elapsed: u64)
        requires
            old(self).wf(),
        ensures
            final(self).wf(),
            exists|ws: Seq<crate::geometry::WindowSnapshot>|
                final(self).animator == old(self).animator.tick_spec(ws, elapsed),
    {
        let snapshots = self.link.drain();
        self.animator.tick(&snapshots, elapsed);
    }

    /// Takes in a change of settings.
    pub fn update(&mut self, settings: &Settings)
        requires
            old(self).wf(),
        ensures
            final(self).wf(),
            final(self).animator == old(self).animator.configure_spec(*settings),
    {
        self.animator.configure(settings);
    }

    /// The crop pass's two parameters for this frame: offset and scale.
    pub fn render_params(&self) -> (r: ((u64, u64), (u64, u64)))
        ensures
            r == ((self.animator.current.x, self.animator.current.y), (
                self.animator.current.zoom,
                self.animator.current.zoom,
            )),
    {
        self.animator.current.shader_params()
    }

    /// Asks the snapshot producer to stop, once, without waiting for it.
    pub fn close(&self) {
        self.link.close();
    }
}

} // verus!
