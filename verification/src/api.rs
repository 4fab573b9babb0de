//! The vocabulary shared by every component: tracks, playback statuses, the
//! events that flow into the reconciliation loop and the snapshots that flow
//! out of it.

use crate::text::{ascii_lowered, lower_ascii, lower_char, same_text};
use vstd::prelude::*;

verus! {

/// What the player is doing, or what just happened to the current track.
///
/// `Added`, `Removed` and `Saved` are markers that accompany a library
/// change; a player never reports them.
#[derive(Clone, Copy, Debug, PartialEq, Eq, Structural)]
pub enum TrackStatus {
    Playing,
    Paused,
    Stopped,
    Added,
    Removed,
    Saved,
}

/// The name under which a status is written and read.
pub open spec fn status_name(status: TrackStatus) -> Seq<char> {
    match status {
        TrackStatus::Playing => "playing"@,
        TrackStatus::Paused => "paused"@,
        TrackStatus::Stopped => "stopped"@,
        TrackStatus::Added => "added"@,
        TrackStatus::Removed => "removed"@,
        TrackStatus::Saved => "saved"@,
    }
}

/// The status that a lowercase name stands for, if any.
pub open spec fn status_named(name: Seq<char>) -> Option<TrackStatus> {
    if name == "playing"@ {
        Some(TrackStatus::Playing)
    } else if name == "stopped"@ {
        Some(TrackStatus::Stopped)
    } else if name == "paused"@ {
        Some(TrackStatus::Paused)
    } else if name == "added"@ {
        Some(TrackStatus::Added)
    } else if name == "removed"@ {
        Some(TrackStatus::Removed)
    } else if name == "saved"@ {
        Some(TrackStatus::Saved)
    } else {
        None
    }
}

/// Every status reads back from its own name, and its name is in lowercase
/// already.
pub proof fn lemma_status_reads_back(status: TrackStatus)
    ensures
        status_named(status_name(status)) == Some(status),
        ascii_lowered(status_name(status)) == status_name(status),
{
    reveal_strlit("playing");
    reveal_strlit("paused");
    reveal_strlit("stopped");
    reveal_strlit("added");
    reveal_strlit("removed");
    reveal_strlit("saved");
    let name = status_name(status);
    assert("playing"@.len() == 7 && "playing"@[0] == 'p');
    assert("stopped"@.len() == 7 && "stopped"@[0] == 's');
    assert("removed"@.len() == 7 && "removed"@[0] == 'r');
    assert("paused"@.len() == 6);
    assert("added"@.len() == 5 && "added"@[0] == 'a');
    assert("saved"@.len() == 5 && "saved"@[0] == 's');
    assert forall|i: int| 0 <= i < name.len() implies lower_char(name[i]) == name[i] by {}
    assert(ascii_lowered(name) =~= name);
}

/// A status name that no status carries.
#[derive(Debug)]
pub struct UnknownStatus {
    /// The text that was given, as it was given.
    pub text: String,
}

impl TrackStatus {
    /// The name of the status, in lowercase.
    pub fn name(self) -> (name: String)
        ensures
            name@ == status_name(self),
    {
        let text = match self {
            TrackStatus::Playing => "playing",
            TrackStatus::Paused => "paused",
            TrackStatus::Stopped => "stopped",
            TrackStatus::Added => "added",
            TrackStatus::Removed => "removed",
            TrackStatus::Saved => "saved",
        };
        text.to_owned()
    }

    /// Reads a status from its exact lowercase name.
    pub fn from_lowercase(name: &str) -> (status: Option<TrackStatus>)
        ensures
            status == status_named(name@),
    {
        if same_text(name, "playing") {
            Some(TrackStatus::Playing)
        } else if same_text(name, "stopped") {
            Some(TrackStatus::Stopped)
        } else if same_text(name, "paused") {
            Some(TrackStatus::Paused)
        } else if same_text(name, "added") {
            Some(TrackStatus::Added)
        } else if same_text(name, "removed") {
            Some(TrackStatus::Removed)
        } else if same_text(name, "saved") {
            Some(TrackStatus::Saved)
        } else {
            None
        }
    }

    /// Reads a status from its name, whatever the case of its letters: a
    /// capital ASCII letter counts as its lowercase form. A text that names
    /// no status comes back in the error.
    pub fn from_str(s: &str) -> (status: Result<TrackStatus, UnknownStatus>)
        ensures
            match status_named(ascii_lowered(s@)) {
                Some(named) => status == Ok::<TrackStatus, UnknownStatus>(named),
                None => status is Err && status->Err_0.text@ == s@,
            },
    {
        let lowered = lower_ascii(s);
        match TrackStatus::from_lowercase(lowered.as_str()) {
            Some(named) => Ok(named),
            None => Err(UnknownStatus { text: s.to_owned() }),
        }
    }
}

/// A track as the player describes it. A track without an id stands for
/// "nothing is playing".
#[derive(Debug)]
pub struct Track {
    pub id: Option<String>,
    pub artist: Option<String>,
    pub title: Option<String>,
    pub album: Option<String>,
}

/// The mathematical value of a [`Track`].
pub struct TrackView {
    pub id: Option<Seq<char>>,
    pub artist: Option<Seq<char>>,
    pub title: Option<Seq<char>>,
    pub album: Option<Seq<char>>,
}

/// The mathematical value of an optional string.
pub open spec fn opt_text(s: Option<String>) -> Option<Seq<char>> {
    match s {
        Some(t) => Some(t@),
        None => None,
    }
}

/// Whether two optional strings hold the same text.
pub fn same_opt_text(a: &Option<String>, b: &Option<String>) -> (same: bool)
    ensures
        same == (opt_text(*a) == opt_text(*b)),
{
    match (a, b) {
        (Some(x), Some(y)) => *x == *y,
        (None, None) => true,
        _ => false,
    }
}

/// A copy of an optional string.
pub fn copy_opt_text(a: &Option<String>) -> (out: Option<String>)
    ensures
        out == *a,
{
    match a {
        Some(x) => Some(x.clone()),
        None => None,
    }
}

impl View for Track {
    type V = TrackView;

    open spec fn view(&self) -> TrackView {
        TrackView {
            id: opt_text(self.id),
            artist: opt_text(self.artist),
            title: opt_text(self.title),
            album: opt_text(self.album),
        }
    }
}

impl Track {
    /// The track that carries no information at all.
    pub open spec fn spec_empty() -> TrackView {
        TrackView { id: None, artist: None, title: None, album: None }
    }

    /// The track that carries no information at all.
    pub fn empty() -> (track: Track)
        ensures
            track@ == Track::spec_empty(),
    {
        Track { id: None, artist: None, title: None, album: None }
    }
}

impl Clone for Track {
    fn clone(&self) -> (out: Self)
        ensures
            out == *self,
    {
        Track {
            id: copy_opt_text(&self.id),
            artist: copy_opt_text(&self.artist),
            title: copy_opt_text(&self.title),
            album: copy_opt_text(&self.album),
        }
    }
}

impl PartialEq for Track {
    fn eq(&self, other: &Self) -> (same: bool) {
        same_opt_text(&self.id, &other.id) && same_opt_text(&self.artist, &other.artist)
            && same_opt_text(&self.title, &other.title) && same_opt_text(
            &self.album,
            &other.album,
        )
    }
}

impl vstd::std_specs::cmp::PartialEqSpecImpl for Track {
    open spec fn obeys_eq_spec() -> bool {
        true
    }

    open spec fn eq_spec(&self, other: &Self) -> bool {
        self@ == other@
    }
}

/// What the player reported at one instant.
#[derive(Debug)]
pub struct TrackChange {
    pub status: TrackStatus,
    pub track: Track,
}

/// The mathematical value of a [`TrackChange`].
pub struct TrackChangeView {
    pub status: TrackStatus,
    pub track: TrackView,
}

impl View for TrackChange {
    type V = TrackChangeView;

    open spec fn view(&self) -> TrackChangeView {
        TrackChangeView { status: self.status, track: self.track@ }
    }
}

impl Clone for TrackChange {
    fn clone(&self) -> (out: Self)
        ensures
            out == *self,
    {
        TrackChange { status: self.status, track: self.track.clone() }
    }
}

impl PartialEq for TrackChange {
    fn eq(&self, other: &Self) -> (same: bool) {
        self.status == other.status && self.track == other.track
    }
}

impl vstd::std_specs::cmp::PartialEqSpecImpl for TrackChange {
    open spec fn obeys_eq_spec() -> bool {
        true
    }

    open spec fn eq_spec(&self, other: &Self) -> bool {
        self@ == other@
    }
}

/// An event on its way into the reconciliation loop.
#[derive(Debug)]
pub enum ChangeEvent {
    /// The player appeared on the session bus.
    SpotifyOpened,
    /// The player left the session bus.
    SpotifyClosed,
    /// The player reported a status or a track.
    TrackChange(TrackChange),
    /// The current track was added to (`true`) or removed from (`false`) the
    /// liked tracks.
    TrackLiked(bool),
    /// The current track was added to (`true`) or removed from (`false`) the
    /// saved tracks.
    TrackSaved(bool),
}

/// The mathematical value of a [`ChangeEvent`].
pub enum ChangeEventView {
    SpotifyOpened,
    SpotifyClosed,
    TrackChange(TrackChangeView),
    TrackLiked(bool),
    TrackSaved(bool),
}

impl View for ChangeEvent {
    type V = ChangeEventView;

    open spec fn view(&self) -> ChangeEventView {
        match self {
            ChangeEvent::SpotifyOpened => ChangeEventView::SpotifyOpened,
            ChangeEvent::SpotifyClosed => ChangeEventView::SpotifyClosed,
            ChangeEvent::TrackChange(change) => ChangeEventView::TrackChange(change@),
            ChangeEvent::TrackLiked(liked) => ChangeEventView::TrackLiked(*liked),
            ChangeEvent::TrackSaved(saved) => ChangeEventView::TrackSaved(*saved),
        }
    }
}

impl Clone for ChangeEvent {
    fn clone(&self) -> (out: Self)
        ensures
            out == *self,
    {
        match self {
            ChangeEvent::SpotifyOpened => ChangeEvent::SpotifyOpened,
            ChangeEvent::SpotifyClosed => ChangeEvent::SpotifyClosed,
            ChangeEvent::TrackChange(change) => ChangeEvent::TrackChange(change.clone()),
            ChangeEvent::TrackLiked(liked) => ChangeEvent::TrackLiked(*liked),
            ChangeEvent::TrackSaved(saved) => ChangeEvent::TrackSaved(*saved),
        }
    }
}

impl PartialEq for ChangeEvent {
    fn eq(&self, other: &Self) -> (same: bool) {
        match (self, other) {
            (ChangeEvent::SpotifyOpened, ChangeEvent::SpotifyOpened) => true,
            (ChangeEvent::SpotifyClosed, ChangeEvent::SpotifyClosed) => true,
            (ChangeEvent::TrackChange(a), ChangeEvent::TrackChange(b)) => a == b,
            (ChangeEvent::TrackLiked(a), ChangeEvent::TrackLiked(b)) => *a == *b,
            (ChangeEvent::TrackSaved(a), ChangeEvent::TrackSaved(b)) => *a == *b,
            _ => false,
        }
    }
}

impl vstd::std_specs::cmp::PartialEqSpecImpl for ChangeEvent {
    open spec fn obeys_eq_spec() -> bool {
        true
    }

    open spec fn eq_spec(&self, other: &Self) -> bool {
        self@ == other@
    }
}

/// One unit of published state: the track, if any, the status, and whether
/// the track is in the library, if that is known.
#[derive(Debug)]
pub struct MonitorResponse {
    pub track: Option<Track>,
    pub status: TrackStatus,
    pub is_liked: Option<bool>,
}

/// The mathematical value of a [`MonitorResponse`].
pub struct MonitorResponseView {
    pub track: Option<TrackView>,
    pub status: TrackStatus,
    pub is_liked: Option<bool>,
}

impl View for MonitorResponse {
    type V = MonitorResponseView;

    open spec fn view(&self) -> MonitorResponseView {
        MonitorResponseView {
            track: match self.track {
                Some(track) => Some(track@),
                None => None,
            },
            status: self.status,
            is_liked: self.is_liked,
        }
    }
}

impl Clone for MonitorResponse {
    fn clone(&self) -> (out: Self)
        ensures
            out == *self,
    {
        MonitorResponse {
            track: match &self.track {
                Some(track) => Some(track.clone()),
                None => None,
            },
            status: self.status,
            is_liked: self.is_liked,
        }
    }
}

impl PartialEq for MonitorResponse {
    fn eq(&self, other: &Self) -> (same: bool) {
        let same_track = match (&self.track, &other.track) {
            (Some(a), Some(b)) => a == b,
            (None, None) => true,
            _ => false,
        };
        let same_liked = match (self.is_liked, other.is_liked) {
            (Some(a), Some(b)) => a == b,
            (None, None) => true,
            _ => false,
        };
        same_track && self.status == other.status && same_liked
    }
}

impl vstd::std_specs::cmp::PartialEqSpecImpl for MonitorResponse {
    open spec fn obeys_eq_spec() -> bool {
        true
    }

    open spec fn eq_spec(&self, other: &Self) -> bool {
        self@ == other@
    }
}

} // verus!
