//! The tracker of the liked tracks.

use crate::api::opt_text;
use crate::tracker::{
    cached, check_step, hand_out, resume_step, step_view, toggle_step, CallView, Facet, Outcome,
    Pending, Reply, Tracker, TrackerError, TrackerView,
};
use vstd::prelude::*;

verus! {

/// Follows which tracks are liked, and which track is the current one.
pub struct LikedTracker {
    pub tracker: Tracker,
}

impl View for LikedTracker {
    type V = TrackerView;

    open spec fn view(&self) -> TrackerView {
        self.tracker@
    }
}

impl LikedTracker {
    /// A tracker that knows nothing and has no current track.
    pub fn new() -> (tracker: Self)
        ensures
            tracker@ == (TrackerView { cache: Map::empty(), cursor: None }),
    {
        LikedTracker { tracker: Tracker::new() }
    }

    /// Begins putting a track into the liked tracks.
    pub fn save(&self, track_id: String) -> (step: Result<Outcome, TrackerError>)
        ensures
            step_view(step) == hand_out(CallView::Add(track_id@), false),
    {
        self.tracker.save(track_id)
    }

    /// Begins taking a track out of the liked tracks.
    pub fn remove(&self, track_id: String) -> (step: Result<Outcome, TrackerError>)
        ensures
            step_view(step) == hand_out(CallView::Remove(track_id@), false),
    {
        self.tracker.remove(track_id)
    }

    /// Whether a track is liked, as far as the cache knows.
    pub fn is_liked_cached(&self, track_id: &String) -> (liked: Option<bool>)
        ensures
            liked == cached(self@.cache, track_id@),
    {
        self.tracker.is_cached(track_id.as_str())
    }

    /// Begins a check of whether a track is liked: answered from the cache
    /// unless a fresh answer is wanted or the cache knows nothing of it.
    pub fn check_liked(&self, track_id: String, force_refresh: bool) -> (step: Result<
        Outcome,
        TrackerError,
    >)
        ensures
            step_view(step) == check_step(self@, track_id@, force_refresh),
    {
        self.tracker.check(track_id, force_refresh)
    }

    /// Begins a toggle of the track that is named, or else of the current
    /// track: a liked track is to be removed, any other added.
    pub fn toggle_liked(&self, track_id_or_current: Option<String>, force_refresh: bool) -> (step:
        Result<Outcome, TrackerError>)
        ensures
            step_view(step) == toggle_step(self@, opt_text(track_id_or_current), force_refresh),
    {
        self.tracker.toggle(track_id_or_current, force_refresh)
    }

    /// Goes on with an operation after the remote library has replied to
    /// the call that was pending. The end of a toggle tells of a liked
    /// track.
    pub fn resume(&mut self, pending: Pending, reply: Reply) -> (step: Result<
        Outcome,
        TrackerError,
    >)
        ensures
            (final(self)@, step_view(step)) == resume_step(
                old(self)@,
                Facet::Liked,
                pending@,
                reply,
            ),
    {
        self.tracker.resume(Facet::Liked, pending, reply)
    }
}

} // verus!
