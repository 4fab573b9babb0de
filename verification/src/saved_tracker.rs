//! The tracker of the saved tracks.

use crate::api::opt_text;
use crate::tracker::{
    cached, check_step, hand_out, resume_step, step_view, toggle_step, CallView, Facet, Outcome,
    Pending, Reply, Tracker, TrackerError, TrackerView,
};
use vstd::prelude::*;

verus! {

/// Follows which tracks are saved, and which track is the current one.
pub struct SavedTracker {
    pub tracker: Tracker,
}

impl View for SavedTracker {
    type V = TrackerView;

    open spec fn view(&self) -> TrackerView {
        self.tracker@
    }
}

impl SavedTracker {
    /// A tracker that knows nothing and has no current track.
    pub fn new() -> (tracker: Self)
        ensures
            tracker@ == (TrackerView { cache: Map::empty(), cursor: None }),
    {
        SavedTracker { tracker: Tracker::new() }
    }

    /// Begins putting a track into the saved tracks.
    pub fn save(&self, track_id: String) -> (step: Result<Outcome, TrackerError>)
        ensures
            step_view(step) == hand_out(CallView::Add(track_id@), false),
    {
        self.tracker.save(track_id)
    }

    /// Begins taking a track out of the saved tracks.
    pub fn remove(&self, track_id: String) -> (step: Result<Outcome, TrackerError>)
        ensures
            step_view(step) == hand_out(CallView::Remove(track_id@), false),
    {
        self.tracker.remove(track_id)
    }

    /// Whether a track is saved, as far as the cache knows.
    pub fn is_saved_cached(&self, track_id: &String) -> (saved: Option<bool>)
        ensures
            saved == cached(self@.cache, track_id@),
    {
        self.tracker.is_cached(track_id.as_str())
    }

    /// Begins a check of whether a track is saved: answered from the cache
    /// unless a fresh answer is wanted or the cache knows nothing of it.
    pub fn check_saved(&self, track_id: String, force_refresh: bool) -> (step: Result<
        Outcome,
        TrackerError,
    >)
        ensures
            step_view(step) == check_step(self@, track_id@, force_refresh),
    {
        self.tracker.check(track_id, force_refresh)
    }

    /// Begins a toggle of the track that is named, or else of the current
    /// track: a saved track is to be removed, any other added.
    pub fn toggle_saved(&self, track_id_or_current: Option<String>, force_refresh: bool) -> (step:
        Result<Outcome, TrackerError>)
        ensures
            step_view(step) == toggle_step(self@, opt_text(track_id_or_current), force_refresh),
    {
        self.tracker.toggle(track_id_or_current, force_refresh)
    }

    /// Goes on with an operation after the remote library has replied to
    /// the call that was pending. The end of a toggle tells of a saved
    /// track.
    pub fn resume(&mut self, pending: Pending, reply: Reply) -> (step: Result<
        Outcome,
        TrackerError,
    >)
        ensures
            (final(self)@, step_view(step)) == resume_step(
                old(self)@,
                Facet::Saved,
                pending@,
                reply,
            ),
    {
        self.tracker.resume(Facet::Saved, pending, reply)
    }
}

} // verus!
