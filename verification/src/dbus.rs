//! The adapter between the session bus and the reconciliation loop: it turns
//! what the player announces into track changes, fills in what a partial
//! announcement leaves out, and drops announcements that repeat the last one.

use crate::api::{
    opt_text, status_named, ChangeEvent, ChangeEventView, Track, TrackChange, TrackChangeView,
    TrackStatus, TrackView,
};
use crate::text::{ascii_lowered, chars_of, same_text, string_of};
use vstd::prelude::*;

verus! {

/// The bus name under which the player registers.
pub const SPOTIFY_DEST: &'static str = "org.mpris.MediaPlayer2.spotify";

/// The value of one metadata entry, as far as the adapter reads it.
#[derive(Debug)]
pub enum Entry {
    /// A string.
    Text(String),
    /// An array; an item that is not a string is `None`.
    List(Vec<Option<String>>),
    /// Anything else.
    Other,
}

/// The value of one player property, as far as the adapter reads it.
#[derive(Debug)]
pub enum Property {
    /// A string.
    Text(String),
    /// A dictionary with string keys, in the order in which it was received.
    Dict(Vec<(String, Entry)>),
    /// Anything else.
    Other,
}

/// One announcement about the player's properties.
#[derive(Debug)]
pub struct Signal {
    /// The playback status, if the announcement carries one.
    pub playback_status: Option<Property>,
    /// The metadata, if the announcement carries it.
    pub metadata: Option<Property>,
    /// Whether this is the answer to an explicit request, rather than
    /// something the player announced by itself.
    pub is_update_request: bool,
}

/// The value of the first entry stored under `key`.
pub open spec fn find_entry(entries: Seq<(String, Entry)>, key: Seq<char>) -> Option<Entry>
    decreases entries.len(),
{
    if entries.len() == 0 {
        None
    } else if entries[0].0@ == key {
        Some(entries[0].1)
    } else {
        find_entry(entries.drop_first(), key)
    }
}

/// A text, unless it is missing or empty.
pub open spec fn non_empty(text: Option<Seq<char>>) -> Option<Seq<char>> {
    match text {
        Some(t) => if t.len() > 0 {
            Some(t)
        } else {
            None
        },
        None => None,
    }
}

/// The text of an entry that is a string.
pub open spec fn entry_text(entry: Option<Entry>) -> Option<Seq<char>> {
    match entry {
        Some(Entry::Text(t)) => Some(t@),
        _ => None,
    }
}

/// Whether every item of an array is a string.
pub open spec fn all_text(items: Seq<Option<String>>) -> bool {
    forall|i: int| 0 <= i < items.len() ==> (#[trigger] items[i]) is Some
}

/// The first item of an entry that is a non-empty array of strings.
pub open spec fn first_of_list(entry: Option<Entry>) -> Option<Seq<char>> {
    match entry {
        Some(Entry::List(items)) => if items@.len() > 0 && all_text(items@) {
            Some(items@[0]->Some_0@)
        } else {
            None
        },
        _ => None,
    }
}

/// Whether `c` separates the parts of a track id.
pub open spec fn is_delimiter(c: char) -> bool {
    c == '/' || c == ':'
}

/// The number of characters of `s` up to and including its last delimiter;
/// zero if it has none.
pub open spec fn segment_start(s: Seq<char>) -> int
    decreases s.len(),
{
    if s.len() == 0 {
        0
    } else if is_delimiter(s.last()) {
        s.len() as int
    } else {
        segment_start(s.drop_last())
    }
}

/// What follows the last delimiter of `s`; all of `s` if it has none.
pub open spec fn trailing_segment(s: Seq<char>) -> Seq<char> {
    s.subrange(segment_start(s), s.len() as int)
}

/// The track id inside the raw id that the player reports: its trailing
/// segment. A raw id that is missing or empty gives none.
pub open spec fn track_id_of(raw: Option<Seq<char>>) -> Option<Seq<char>> {
    match non_empty(raw) {
        Some(t) => Some(trailing_segment(t)),
        None => None,
    }
}

/// The track that a metadata dictionary describes.
pub open spec fn track_of_entries(entries: Seq<(String, Entry)>) -> TrackView {
    TrackView {
        id: track_id_of(entry_text(find_entry(entries, "mpris:trackid"@))),
        artist: non_empty(first_of_list(find_entry(entries, "xesam:artist"@))),
        title: non_empty(entry_text(find_entry(entries, "xesam:title"@))),
        album: non_empty(entry_text(find_entry(entries, "xesam:album"@))),
    }
}

/// The track that a metadata property describes; the empty track if the
/// property is no dictionary.
pub open spec fn track_of_property(metadata: Property) -> TrackView {
    match metadata {
        Property::Dict(entries) => track_of_entries(entries@),
        _ => Track::spec_empty(),
    }
}

/// The player status that a lowercase name stands for: `Playing`, `Paused`
/// or `Stopped`, and `Stopped` for every other text.
pub open spec fn player_status_named(name: Seq<char>) -> TrackStatus {
    match status_named(name) {
        Some(TrackStatus::Playing) => TrackStatus::Playing,
        Some(TrackStatus::Paused) => TrackStatus::Paused,
        _ => TrackStatus::Stopped,
    }
}

/// The player status that a status property stands for; `Stopped` if the
/// property is no string.
pub open spec fn status_of_property(status: Property) -> TrackStatus {
    match status {
        Property::Text(t) => player_status_named(ascii_lowered(t@)),
        _ => TrackStatus::Stopped,
    }
}

/// The track change that an announcement amounts to, given the change before
/// it.
///
/// What the announcement carries is read from it. What it leaves out is
/// taken from the change before, if the player announced it by itself: a
/// status alone does not reset the track, nor a track the status. The answer
/// to an explicit request is complete: what it leaves out is not there.
pub open spec fn derive_change(last: Option<TrackChangeView>, signal: Signal) -> TrackChangeView {
    let known = !signal.is_update_request && last is Some;
    TrackChangeView {
        status: match signal.playback_status {
            Some(status) => status_of_property(status),
            None => if known {
                last->Some_0.status
            } else {
                TrackStatus::Stopped
            },
        },
        track: match signal.metadata {
            Some(metadata) => track_of_property(metadata),
            None => if known {
                last->Some_0.track
            } else {
                Track::spec_empty()
            },
        },
    }
}

/// Whether the change that an announcement amounts to is passed on: always
/// for the answer to an explicit request, and otherwise unless it repeats
/// the change before it.
pub open spec fn passes_on(last: Option<TrackChangeView>, signal: Signal) -> bool {
    signal.is_update_request || last != Some(derive_change(last, signal))
}

/// The value of an optional track change.
pub open spec fn opt_change(change: Option<TrackChange>) -> Option<TrackChangeView> {
    match change {
        Some(c) => Some(c@),
        None => None,
    }
}

/// Where the trailing segment starts: inside the text, and right behind a
/// delimiter unless it is the start of the text. The segment itself holds no
/// delimiter.
pub proof fn lemma_trailing_segment(s: Seq<char>)
    ensures
        0 <= segment_start(s) <= s.len(),
        segment_start(s) == 0 || is_delimiter(s[segment_start(s) - 1]),
        forall|i: int| segment_start(s) <= i < s.len() ==> !is_delimiter(#[trigger] s[i]),
        forall|i: int|
            0 <= i < trailing_segment(s).len() ==> !is_delimiter(#[trigger] trailing_segment(s)[i]),
    decreases s.len(),
{
    if s.len() > 0 && !is_delimiter(s.last()) {
        lemma_trailing_segment(s.drop_last());
        assert forall|i: int| segment_start(s) <= i < s.len() implies !is_delimiter(
            #[trigger] s[i],
        ) by {
            if i < s.len() - 1 {
                assert(s[i] == s.drop_last()[i]);
            }
        }
    }
}

/// The value of the first entry stored under `key`.
fn lookup<'a>(entries: &'a Vec<(String, Entry)>, key: &str) -> (found: Option<&'a Entry>)
    ensures
        match found {
            Some(entry) => find_entry(entries@, key@) == Some(*entry),
            None => find_entry(entries@, key@) is None,
        },
{
    let mut i: usize = 0;
    assert(entries@.skip(0) == entries@);
    while i < entries.len()
        invariant
            i <= entries.len(),
            find_entry(entries@, key@) == find_entry(entries@.skip(i as int), key@),
        decreases entries.len() - i,
    {
        if same_text(entries[i].0.as_str(), key) {
            return Some(&entries[i].1);
        }
        assert(entries@.skip(i as int).drop_first() == entries@.skip(i + 1));
        i += 1;
    }
    None
}

/// The text stored under `key`, unless it is missing, empty or no string.
fn text_at(entries: &Vec<(String, Entry)>, key: &str) -> (text: Option<String>)
    ensures
        opt_text(text) == non_empty(entry_text(find_entry(entries@, key@))),
{
    match lookup(entries, key) {
        Some(Entry::Text(t)) => if t.as_str().unicode_len() > 0 {
            Some(t.clone())
        } else {
            None
        },
        _ => None,
    }
}

/// Whether every item of an array is a string.
fn holds_only_text(items: &Vec<Option<String>>) -> (only_text: bool)
    ensures
        only_text == all_text(items@),
{
    let mut i: usize = 0;
    while i < items.len()
        invariant
            i <= items.len(),
            forall|j: int| 0 <= j < i ==> (#[trigger] items@[j]) is Some,
        decreases items.len() - i,
    {
        if items[i].is_none() {
            assert(items@[i as int] is None);
            return false;
        }
        i += 1;
    }
    true
}

/// The first item of the array stored under `key`, unless the array is
/// missing or empty, holds anything but strings, or starts with an empty
/// string.
fn first_at(entries: &Vec<(String, Entry)>, key: &str) -> (text: Option<String>)
    ensures
        opt_text(text) == non_empty(first_of_list(find_entry(entries@, key@))),
{
    match lookup(entries, key) {
        Some(Entry::List(items)) => {
            if items.len() == 0 || !holds_only_text(items) {
                return None;
            }
            match &items[0] {
                Some(first) => if first.as_str().unicode_len() > 0 {
                    Some(first.clone())
                } else {
                    None
                },
                None => None,
            }
        },
        _ => None,
    }
}

/// Takes the track id out of a raw id such as `spotify:track:<id>` or
/// `/com/spotify/track/<id>`: what follows the last `/` or `:`.
pub fn extract_track_id(raw: &str) -> (id: String)
    ensures
        id@ == trailing_segment(raw@),
{
    let chars = chars_of(raw);
    let mut start: usize = chars.len();
    assert(chars@.take(start as int) == chars@);
    while start > 0 && chars[start - 1] != '/' && chars[start - 1] != ':'
        invariant
            start <= chars.len(),
            segment_start(chars@) == segment_start(chars@.take(start as int)),
        decreases start,
    {
        assert(chars@.take(start as int).drop_last() == chars@.take(start - 1));
        start -= 1;
    }
    let mut segment: Vec<char> = Vec::new();
    let mut i: usize = start;
    while i < chars.len()
        invariant
            start <= i <= chars.len(),
            segment@ == chars@.subrange(start as int, i as int),
        decreases chars.len() - i,
    {
        segment.push(chars[i]);
        assert(chars@.subrange(start as int, i + 1) == chars@.subrange(start as int, i as int).push(
            chars@[i as int],
        ));
        i += 1;
    }
    string_of(&segment)
}

/// The track that a metadata dictionary describes.
pub fn track_from_entries(entries: &Vec<(String, Entry)>) -> (track: Track)
    ensures
        track@ == track_of_entries(entries@),
{
    let id = match text_at(entries, "mpris:trackid") {
        Some(raw) => Some(extract_track_id(raw.as_str())),
        None => None,
    };
    Track {
        id,
        artist: first_at(entries, "xesam:artist"),
        title: text_at(entries, "xesam:title"),
        album: text_at(entries, "xesam:album"),
    }
}

/// The player status that a status text stands for, whatever the case of
/// its letters: `Stopped` for a text that is neither "playing" nor "paused".
pub fn player_status(text: &str) -> (status: TrackStatus)
    ensures
        status == player_status_named(ascii_lowered(text@)),
{
    match TrackStatus::from_str(text) {
        Ok(TrackStatus::Playing) => TrackStatus::Playing,
        Ok(TrackStatus::Paused) => TrackStatus::Paused,
        _ => TrackStatus::Stopped,
    }
}

/// The changes that are passed on, in order, while a run of announcements
/// comes in after the change `last`.
pub open spec fn published(last: Option<TrackChangeView>, signals: Seq<Signal>) -> Seq<
    TrackChangeView,
>
    decreases signals.len(),
{
    if signals.len() == 0 {
        Seq::empty()
    } else {
        let change = derive_change(last, signals[0]);
        let rest = published(Some(change), signals.drop_first());
        if passes_on(last, signals[0]) {
            seq![change] + rest
        } else {
            rest
        }
    }
}

/// While the player announces by itself, no change is passed on twice in a
/// row: of equal changes that follow each other only the first goes out, and
/// the first change that goes out differs from the one before the run.
pub proof fn lemma_passive_changes_collapse(last: Option<TrackChangeView>, signals: Seq<Signal>)
    requires
        forall|i: int| 0 <= i < signals.len() ==> !(#[trigger] signals[i]).is_update_request,
    ensures
        forall|k: int|
            0 <= k < published(last, signals).len() - 1 ==> (#[trigger] published(last, signals)[k])
                != published(last, signals)[k + 1],
        last is Some && published(last, signals).len() > 0 ==> published(last, signals)[0]
            != last->Some_0,
    decreases signals.len(),
{
    if signals.len() > 0 {
        let change = derive_change(last, signals[0]);
        let tail = signals.drop_first();
        assert forall|i: int| 0 <= i < tail.len() implies !(#[trigger] tail[i]).is_update_request by {
            assert(tail[i] == signals[i + 1]);
        }
        lemma_passive_changes_collapse(Some(change), tail);
        let rest = published(Some(change), tail);
        if passes_on(last, signals[0]) {
            let out = seq![change] + rest;
            assert(published(last, signals) == out);
            assert forall|k: int| 0 <= k < out.len() - 1 implies (#[trigger] out[k]) != out[k + 1] by {
                if k > 0 {
                    assert(out[k] == rest[k - 1]);
                    assert(out[k + 1] == rest[k]);
                }
            }
        }
    }
}

/// The answer to an explicit request is passed on whatever came before it,
/// so a run always publishes at least as many changes as it holds answers.
pub proof fn lemma_request_is_published(last: Option<TrackChangeView>, signals: Seq<Signal>)
    requires
        signals.len() > 0,
        signals[0].is_update_request,
    ensures
        published(last, signals).len() > 0,
        published(last, signals)[0] == derive_change(last, signals[0]),
{
}

/// The adapter's memory: the change that the last announcement amounted to.
#[derive(Debug)]
pub struct DBusClient {
    pub last_change: Option<TrackChange>,
}

impl DBusClient {
    /// An adapter that has seen no announcement yet.
    pub fn new() -> (client: Self)
        ensures
            client.last_change is None,
    {
        DBusClient { last_change: None }
    }

    /// Takes in one announcement about the player's properties and says
    /// what, if anything, goes on to the reconciliation loop.
    ///
    /// The announcement is completed from the change before it and
    /// remembered. It is passed on as a track change unless the player
    /// announced it by itself and it repeats the change before it.
    pub fn listen_song_changes(&mut self, signal: &Signal) -> (event: Option<ChangeEvent>)
        ensures
            opt_change(final(self).last_change) == Some(
                derive_change(opt_change(old(self).last_change), *signal),
            ),
            match event {
                Some(e) => passes_on(opt_change(old(self).last_change), *signal) && e@
                    == ChangeEventView::TrackChange(
                    derive_change(opt_change(old(self).last_change), *signal),
                ),
                None => !passes_on(opt_change(old(self).last_change), *signal),
            },
            signal.is_update_request ==> event is Some,
    {
        let status = match &signal.playback_status {
            Some(Property::Text(text)) => player_status(text.as_str()),
            Some(_) => TrackStatus::Stopped,
            None => match &self.last_change {
                Some(last) => if signal.is_update_request {
                    TrackStatus::Stopped
                } else {
                    last.status
                },
                None => TrackStatus::Stopped,
            },
        };
        let track = match &signal.metadata {
            Some(Property::Dict(entries)) => track_from_entries(entries),
            Some(_) => Track::empty(),
            None => match &self.last_change {
                Some(last) => if signal.is_update_request {
                    Track::empty()
                } else {
                    last.track.clone()
                },
                None => Track::empty(),
            },
        };
        let change = TrackChange { status, track };
        let repeats = match &self.last_change {
            Some(last) => *last == change,
            None => false,
        };
        self.last_change = Some(change.clone());
        if !signal.is_update_request && repeats {
            None
        } else {
            Some(ChangeEvent::TrackChange(change))
        }
    }
}

/// What follows from a change of a bus name's owner.
#[derive(Debug)]
pub struct WindowChange {
    /// The event for the reconciliation loop.
    pub event: ChangeEvent,
    /// Whether the player's state has to be fetched anew.
    pub request_update: bool,
}

/// What a change of owner of the bus name `name` means: nothing unless it is
/// the player's name; the player has closed, and its state is to be fetched
/// anew, if the name has no owner any more; the player has opened otherwise.
pub open spec fn window_change_of(name: Seq<char>, new_owner: Option<Seq<char>>) -> Option<
    (ChangeEventView, bool),
> {
    if name != SPOTIFY_DEST@ {
        None
    } else if non_empty(new_owner) is None {
        Some((ChangeEventView::SpotifyClosed, true))
    } else {
        Some((ChangeEventView::SpotifyOpened, false))
    }
}

/// Reads a change of owner of a bus name.
pub fn listen_spotify_window(name: &str, new_owner: Option<&str>) -> (change: Option<WindowChange>)
    ensures
        match change {
            Some(c) => window_change_of(
                name@,
                match new_owner {
                    Some(owner) => Some(owner@),
                    None => None,
                },
            ) == Some((c.event@, c.request_update)),
            None => window_change_of(
                name@,
                match new_owner {
                    Some(owner) => Some(owner@),
                    None => None,
                },
            ) is None,
        },
{
    if !same_text(name, SPOTIFY_DEST) {
        return None;
    }
    let owned = match new_owner {
        Some(owner) => owner.unicode_len() > 0,
        None => false,
    };
    if owned {
        Some(WindowChange { event: ChangeEvent::SpotifyOpened, request_update: false })
    } else {
        Some(WindowChange { event: ChangeEvent::SpotifyClosed, request_update: true })
    }
}

/// Something that the session bus delivered.
#[derive(Debug)]
pub enum BusInput {
    /// An announcement about the player's properties, or the answer to a
    /// request for them.
    Properties(Signal),
    /// The bus name `name` has changed its owner; `new_owner` is the new
    /// one, if there is one.
    NameOwnerChanged { name: String, new_owner: Option<String> },
}

/// What the adapter makes of one delivery.
#[derive(Debug)]
pub struct Heard {
    /// The event for the reconciliation loop, if any.
    pub event: Option<ChangeEvent>,
    /// Whether the player's state has to be fetched anew.
    pub request_update: bool,
}

/// What one delivery does: the change that the adapter remembers after it,
/// the event that goes on to the loop, and whether the player's state is to
/// be fetched anew.
pub open spec fn listen_step(last: Option<TrackChangeView>, input: BusInput) -> (
    Option<TrackChangeView>,
    Option<ChangeEventView>,
    bool,
) {
    match input {
        BusInput::Properties(signal) => (
            Some(derive_change(last, signal)),
            if passes_on(last, signal) {
                Some(ChangeEventView::TrackChange(derive_change(last, signal)))
            } else {
                None
            },
            false,
        ),
        BusInput::NameOwnerChanged { name, new_owner } => match window_change_of(
            name@,
            opt_text(new_owner),
        ) {
            Some((event, request_update)) => (last, Some(event), request_update),
            None => (last, None, false),
        },
    }
}

/// The value of an optional event.
pub open spec fn opt_event(event: Option<ChangeEvent>) -> Option<ChangeEventView> {
    match event {
        Some(e) => Some(e@),
        None => None,
    }
}

impl DBusClient {
    /// Takes in one delivery of the session bus, whichever of the two
    /// sources it comes from.
    pub fn listen(&mut self, input: &BusInput) -> (heard: Heard)
        ensures
            (opt_change(final(self).last_change), opt_event(heard.event), heard.request_update)
                == listen_step(opt_change(old(self).last_change), *input),
    {
        match input {
            BusInput::Properties(signal) => Heard {
                event: self.listen_song_changes(signal),
                request_update: false,
            },
            BusInput::NameOwnerChanged { name, new_owner } => {
                let owner = match new_owner {
                    Some(text) => Some(text.as_str()),
                    None => None,
                };
                match listen_spotify_window(name.as_str(), owner) {
                    Some(change) => Heard {
                        event: Some(change.event),
                        request_update: change.request_update,
                    },
                    None => Heard { event: None, request_update: false },
                }
            },
        }
    }
}

} // verus!
