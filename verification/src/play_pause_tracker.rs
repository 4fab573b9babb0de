//! The tracker of the play/pause facet. The remote library offers nothing
//! to write for it yet, so a toggle only finds its track.

use crate::tracker::TrackerError;
use vstd::prelude::*;

verus! {

/// Follows which track is the current one.
pub struct PlayPauseTracker {
    pub current_track_id: Option<String>,
}

impl PlayPauseTracker {
    /// A tracker without a current track.
    pub fn new() -> (tracker: Self)
        ensures
            tracker.current_track_id is None,
    {
        PlayPauseTracker { current_track_id: None }
    }

    /// Toggles the track that is named, or else the current track. It fails
    /// if there is neither; otherwise it changes nothing and answers
    /// `false`.
    pub fn toggle(&mut self, track_id_or_current: Option<String>, force_refresh: bool) -> (toggled:
        Result<bool, TrackerError>)
        ensures
            *final(self) == *old(self),
            toggled == if track_id_or_current is None && old(self).current_track_id is None {
                Err::<bool, TrackerError>(TrackerError::NoCurrentTrack)
            } else {
                Ok::<bool, TrackerError>(false)
            },
    {
        if track_id_or_current.is_none() && self.current_track_id.is_none() {
            return Err(TrackerError::NoCurrentTrack);
        }
        Ok(false)
    }
}

} // verus!
