//! What every library tracker shares: the cache of memberships, the cursor
//! on the current track, and the protocol by which a tracker has the remote
//! library asked and written to.
//!
//! A tracker never talks to the remote library itself. It answers from its
//! cache where it can, and otherwise hands out the call that has to be made;
//! whoever made the call hands the reply back, and the tracker goes on from
//! there.

use crate::api::{opt_text, ChangeEvent, ChangeEventView};
use rspotify::model::{Id, IdError, TrackId};
use vstd::hash_map::StringHashMap;
use vstd::prelude::*;

verus! {

/// The reason for which the remote library's client turns an id down.
/// Nothing inside it is read here.
#[verifier::external_type_specification]
#[verifier::external_body]
pub struct ExIdError(IdError);

/// Whether `c` may stand in a track id: an ASCII letter or digit.
pub open spec fn is_id_char(c: char) -> bool {
    ('0' <= c && c <= '9') || ('a' <= c && c <= 'z') || ('A' <= c && c <= 'Z')
}

/// Whether the remote library's client accepts `id` as a track id: every
/// character is an ASCII letter or digit.
pub open spec fn valid_id(id: Seq<char>) -> bool {
    forall|i: int| 0 <= i < id.len() ==> is_id_char(#[trigger] id[i])
}

/// `TrackId::from_id` accepts an id exactly if all of its characters are
/// ASCII letters or digits; the accepted id reads back as the text that was
/// given.
#[verifier::external_body]
fn parse_track_id(id: &str) -> (parsed: Result<String, IdError>)
    ensures
        parsed is Ok <==> valid_id(id@),
        parsed is Ok ==> parsed->Ok_0@ == id@,
{
    match TrackId::from_id(id) {
        Ok(track) => Ok(track.id().to_owned()),
        Err(error) => Err(error),
    }
}

/// The library facet that a tracker follows.
#[derive(Clone, Copy, Debug, PartialEq, Eq, Structural)]
pub enum Facet {
    Liked,
    Saved,
}

/// Why a tracker could not go on.
#[derive(Clone, Copy, Debug, PartialEq, Eq, Structural)]
pub enum TrackerError {
    /// No track was named and none is playing.
    NoCurrentTrack,
    /// The track id holds a character that is no ASCII letter or digit.
    InvalidId,
    /// The reply does not answer the call that was pending.
    UnexpectedReply,
}

/// A call that the remote library is to be asked to make.
#[derive(Debug)]
pub enum RemoteCall {
    /// Is this track in the library?
    Contains(String),
    /// Put this track into the library.
    Add(String),
    /// Take this track out of the library.
    Remove(String),
}

/// The mathematical value of a [`RemoteCall`].
pub enum CallView {
    Contains(Seq<char>),
    Add(Seq<char>),
    Remove(Seq<char>),
}

impl CallView {
    /// The track that the call is about.
    pub open spec fn id(self) -> Seq<char> {
        match self {
            CallView::Contains(id) => id,
            CallView::Add(id) => id,
            CallView::Remove(id) => id,
        }
    }
}

impl View for RemoteCall {
    type V = CallView;

    open spec fn view(&self) -> CallView {
        match self {
            RemoteCall::Contains(id) => CallView::Contains(id@),
            RemoteCall::Add(id) => CallView::Add(id@),
            RemoteCall::Remove(id) => CallView::Remove(id@),
        }
    }
}

/// A call that is on its way to the remote library, and whether it is part
/// of a toggle.
#[derive(Debug)]
pub struct Pending {
    pub call: RemoteCall,
    pub toggle: bool,
}

/// The mathematical value of a [`Pending`].
pub struct PendingView {
    pub call: CallView,
    pub toggle: bool,
}

impl View for Pending {
    type V = PendingView;

    open spec fn view(&self) -> PendingView {
        PendingView { call: self.call@, toggle: self.toggle }
    }
}

/// What the remote library answered.
#[derive(Clone, Copy, Debug, PartialEq, Eq, Structural)]
pub enum Reply {
    /// The answer to `Contains`.
    Membership(bool),
    /// The acknowledgement of `Add` or `Remove`.
    Done,
}

/// How far an operation has come.
#[derive(Debug)]
pub enum Outcome {
    /// This call has to be made; its reply goes to `resume`.
    Call(Pending),
    /// The check is done: the track is, or is not, in the library.
    Checked(bool),
    /// The write is done: the track is now in the library, or out of it.
    Stored(bool),
    /// The toggle is done: the track is now in the library, or out of it,
    /// and this event tells the reconciliation loop.
    Toggled(bool, ChangeEvent),
}

/// The mathematical value of an [`Outcome`].
pub enum OutcomeView {
    Call(PendingView),
    Checked(bool),
    Stored(bool),
    Toggled(bool, ChangeEventView),
}

impl View for Outcome {
    type V = OutcomeView;

    open spec fn view(&self) -> OutcomeView {
        match self {
            Outcome::Call(pending) => OutcomeView::Call(pending@),
            Outcome::Checked(member) => OutcomeView::Checked(*member),
            Outcome::Stored(member) => OutcomeView::Stored(*member),
            Outcome::Toggled(member, event) => OutcomeView::Toggled(*member, event@),
        }
    }
}

/// The value of the result of a step.
pub open spec fn step_view(step: Result<Outcome, TrackerError>) -> Result<
    OutcomeView,
    TrackerError,
> {
    match step {
        Ok(outcome) => Ok(outcome@),
        Err(error) => Err(error),
    }
}

/// The memberships that are known, by track id.
pub struct Tracks {
    known: StringHashMap<bool>,
}

impl View for Tracks {
    type V = Map<Seq<char>, bool>;

    closed spec fn view(&self) -> Map<Seq<char>, bool> {
        self.known@
    }
}

impl Tracks {
    /// A cache that knows nothing.
    pub fn new() -> (tracks: Self)
        ensures
            tracks@ == Map::<Seq<char>, bool>::empty(),
    {
        Tracks { known: StringHashMap::new() }
    }

    /// What is known of a track.
    pub fn get(&self, track: &str) -> (member: Option<bool>)
        ensures
            member == cached(self@, track@),
    {
        match self.known.get(track) {
            Some(member) => Some(*member),
            None => None,
        }
    }

    /// Notes what is now known of a track, and returns what was known of it
    /// before.
    pub fn add(&mut self, track: String, member: bool) -> (before: Option<bool>)
        ensures
            final(self)@ == old(self)@.insert(track@, member),
            before == cached(old(self)@, track@),
    {
        let before = self.get(track.as_str());
        self.known.insert(track, member);
        before
    }
}

/// What a cache knows of a track.
pub open spec fn cached(cache: Map<Seq<char>, bool>, id: Seq<char>) -> Option<bool> {
    if cache.contains_key(id) {
        Some(cache[id])
    } else {
        None
    }
}

/// One tracker: what it knows of the library, and the track it takes for
/// the current one.
pub struct Tracker {
    pub tracks: Tracks,
    pub current_track_id: Option<String>,
}

/// The mathematical value of a [`Tracker`].
pub struct TrackerView {
    pub cache: Map<Seq<char>, bool>,
    pub cursor: Option<Seq<char>>,
}

impl View for Tracker {
    type V = TrackerView;

    open spec fn view(&self) -> TrackerView {
        TrackerView { cache: self.tracks@, cursor: opt_text(self.current_track_id) }
    }
}

/// What a tracker answers without asking: the cached membership, unless a
/// fresh answer is wanted.
pub open spec fn answer_at_hand(tracker: TrackerView, id: Seq<char>, force_refresh: bool) -> Option<
    bool,
> {
    if force_refresh {
        None
    } else {
        cached(tracker.cache, id)
    }
}

/// Handing out a call: the call goes out if its track id is valid, and
/// fails otherwise.
pub open spec fn hand_out(call: CallView, toggle: bool) -> Result<OutcomeView, TrackerError> {
    if valid_id(call.id()) {
        Ok(OutcomeView::Call(PendingView { call, toggle }))
    } else {
        Err(TrackerError::InvalidId)
    }
}

/// The first step of a check: the answer at hand, or else the question to
/// the remote library.
pub open spec fn check_step(tracker: TrackerView, id: Seq<char>, force_refresh: bool) -> Result<
    OutcomeView,
    TrackerError,
> {
    match answer_at_hand(tracker, id, force_refresh) {
        Some(member) => Ok(OutcomeView::Checked(member)),
        None => hand_out(CallView::Contains(id), false),
    }
}

/// The track that an operation is about: the one that is named, or else the
/// current one.
pub open spec fn target(tracker: TrackerView, named: Option<Seq<char>>) -> Option<Seq<char>> {
    match named {
        Some(id) => Some(id),
        None => tracker.cursor,
    }
}

/// The write that flips a membership.
pub open spec fn flip(id: Seq<char>, member: bool) -> CallView {
    if member {
        CallView::Remove(id)
    } else {
        CallView::Add(id)
    }
}

/// The first step of a toggle: it fails if there is no track to toggle;
/// with the membership at hand it hands out the write that flips it; else it
/// asks the remote library first.
pub open spec fn toggle_step(
    tracker: TrackerView,
    named: Option<Seq<char>>,
    force_refresh: bool,
) -> Result<OutcomeView, TrackerError> {
    match target(tracker, named) {
        None => Err(TrackerError::NoCurrentTrack),
        Some(id) => match answer_at_hand(tracker, id, force_refresh) {
            Some(member) => hand_out(flip(id, member), true),
            None => hand_out(CallView::Contains(id), true),
        },
    }
}

/// The event that tells of a toggle.
pub open spec fn toggled_event(facet: Facet, member: bool) -> ChangeEventView {
    match facet {
        Facet::Liked => ChangeEventView::TrackLiked(member),
        Facet::Saved => ChangeEventView::TrackSaved(member),
    }
}

/// The end of a write that left the track in the library (`member`) or out
/// of it.
pub open spec fn written(facet: Facet, toggle: bool, member: bool) -> OutcomeView {
    if toggle {
        OutcomeView::Toggled(member, toggled_event(facet, member))
    } else {
        OutcomeView::Stored(member)
    }
}

/// The step after a reply: the tracker notes what it learnt, and the
/// operation ends or goes on.
///
/// The answer to a question is cached; it ends a check, and in a toggle the
/// write that flips it goes out. The acknowledgement of a write is cached as
/// the new membership and ends the operation. A reply that does not answer
/// the pending call changes nothing and fails.
pub open spec fn resume_step(
    tracker: TrackerView,
    facet: Facet,
    pending: PendingView,
    reply: Reply,
) -> (TrackerView, Result<OutcomeView, TrackerError>) {
    match (pending.call, reply) {
        (CallView::Contains(id), Reply::Membership(member)) => (
            TrackerView { cache: tracker.cache.insert(id, member), ..tracker },
            if pending.toggle {
                hand_out(flip(id, member), true)
            } else {
                Ok(OutcomeView::Checked(member))
            },
        ),
        (CallView::Add(id), Reply::Done) => (
            TrackerView { cache: tracker.cache.insert(id, true), ..tracker },
            Ok(written(facet, pending.toggle, true)),
        ),
        (CallView::Remove(id), Reply::Done) => (
            TrackerView { cache: tracker.cache.insert(id, false), ..tracker },
            Ok(written(facet, pending.toggle, false)),
        ),
        _ => (tracker, Err(TrackerError::UnexpectedReply)),
    }
}

/// Hands out a call, if its track id is valid.
fn call_out(call: RemoteCall, toggle: bool) -> (step: Result<Outcome, TrackerError>)
    ensures
        step_view(step) == hand_out(call@, toggle),
{
    let checked = match call {
        RemoteCall::Contains(id) => match parse_track_id(id.as_str()) {
            Ok(valid) => Some(RemoteCall::Contains(valid)),
            Err(_) => None,
        },
        RemoteCall::Add(id) => match parse_track_id(id.as_str()) {
            Ok(valid) => Some(RemoteCall::Add(valid)),
            Err(_) => None,
        },
        RemoteCall::Remove(id) => match parse_track_id(id.as_str()) {
            Ok(valid) => Some(RemoteCall::Remove(valid)),
            Err(_) => None,
        },
    };
    match checked {
        Some(call) => Ok(Outcome::Call(Pending { call, toggle })),
        None => Err(TrackerError::InvalidId),
    }
}

/// The end of a write that left the track in the library or out of it.
fn end_of_write(facet: Facet, toggle: bool, member: bool) -> (outcome: Outcome)
    ensures
        outcome@ == written(facet, toggle, member),
{
    if toggle {
        let event = match facet {
            Facet::Liked => ChangeEvent::TrackLiked(member),
            Facet::Saved => ChangeEvent::TrackSaved(member),
        };
        Outcome::Toggled(member, event)
    } else {
        Outcome::Stored(member)
    }
}

impl Tracker {
    /// A tracker that knows nothing and has no current track.
    pub fn new() -> (tracker: Self)
        ensures
            tracker@ == (TrackerView { cache: Map::empty(), cursor: None }),
    {
        Tracker { tracks: Tracks::new(), current_track_id: None }
    }

    /// What the cache knows of a track.
    pub fn is_cached(&self, track_id: &str) -> (member: Option<bool>)
        ensures
            member == cached(self@.cache, track_id@),
    {
        self.tracks.get(track_id)
    }

    /// Begins a check of a track.
    pub fn check(&self, track_id: String, force_refresh: bool) -> (step: Result<
        Outcome,
        TrackerError,
    >)
        ensures
            step_view(step) == check_step(self@, track_id@, force_refresh),
    {
        if !force_refresh {
            if let Some(member) = self.tracks.get(track_id.as_str()) {
                return Ok(Outcome::Checked(member));
            }
        }
        call_out(RemoteCall::Contains(track_id), false)
    }

    /// Begins putting a track into the library.
    pub fn save(&self, track_id: String) -> (step: Result<Outcome, TrackerError>)
        ensures
            step_view(step) == hand_out(CallView::Add(track_id@), false),
    {
        call_out(RemoteCall::Add(track_id), false)
    }

    /// Begins taking a track out of the library.
    pub fn remove(&self, track_id: String) -> (step: Result<Outcome, TrackerError>)
        ensures
            step_view(step) == hand_out(CallView::Remove(track_id@), false),
    {
        call_out(RemoteCall::Remove(track_id), false)
    }

    /// Begins a toggle of the track that is named, or else of the current
    /// track.
    pub fn toggle(&self, track_id_or_current: Option<String>, force_refresh: bool) -> (step:
        Result<Outcome, TrackerError>)
        ensures
            step_view(step) == toggle_step(self@, opt_text(track_id_or_current), force_refresh),
    {
        let track_id = match track_id_or_current {
            Some(id) => id,
            None => match &self.current_track_id {
                Some(current) => current.clone(),
                None => {
                    return Err(TrackerError::NoCurrentTrack);
                },
            },
        };
        let at_hand = if force_refresh {
            None
        } else {
            self.tracks.get(track_id.as_str())
        };
        match at_hand {
            Some(true) => call_out(RemoteCall::Remove(track_id), true),
            Some(false) => call_out(RemoteCall::Add(track_id), true),
            None => call_out(RemoteCall::Contains(track_id), true),
        }
    }

    /// Goes on with an operation after the remote library has replied to
    /// the call that was pending. `facet` is the facet that the tracker
    /// follows.
    pub fn resume(&mut self, facet: Facet, pending: Pending, reply: Reply) -> (step: Result<
        Outcome,
        TrackerError,
    >)
        ensures
            (final(self)@, step_view(step)) == resume_step(old(self)@, facet, pending@, reply),
    {
        let toggle = pending.toggle;
        match (pending.call, reply) {
            (RemoteCall::Contains(id), Reply::Membership(member)) => {
                self.tracks.add(id.clone(), member);
                if toggle {
                    if member {
                        call_out(RemoteCall::Remove(id), true)
                    } else {
                        call_out(RemoteCall::Add(id), true)
                    }
                } else {
                    Ok(Outcome::Checked(member))
                }
            },
            (RemoteCall::Add(id), Reply::Done) => {
                self.tracks.add(id, true);
                Ok(end_of_write(facet, toggle, true))
            },
            (RemoteCall::Remove(id), Reply::Done) => {
                self.tracks.add(id, false);
                Ok(end_of_write(facet, toggle, false))
            },
            _ => Err(TrackerError::UnexpectedReply),
        }
    }
}

/// What a remote library that holds the tracks `library` does with a call:
/// the library after it, and the reply.
pub open spec fn answer(library: Set<Seq<char>>, call: CallView) -> (Set<Seq<char>>, Reply) {
    match call {
        CallView::Contains(id) => (library, Reply::Membership(library.contains(id))),
        CallView::Add(id) => (library.insert(id), Reply::Done),
        CallView::Remove(id) => (library.remove(id), Reply::Done),
    }
}

/// An operation carried on against the remote library `library` from the
/// step `step`, for at most `calls` calls: the tracker and the library after
/// it, and the step at which it stands.
pub open spec fn carry_on(
    tracker: TrackerView,
    facet: Facet,
    library: Set<Seq<char>>,
    step: Result<OutcomeView, TrackerError>,
    calls: nat,
) -> (TrackerView, Set<Seq<char>>, Result<OutcomeView, TrackerError>)
    decreases calls,
{
    match step {
        Ok(OutcomeView::Call(pending)) => if calls > 0 {
            let (after, reply) = answer(library, pending.call);
            let (next, step) = resume_step(tracker, facet, pending, reply);
            carry_on(next, facet, after, step, (calls - 1) as nat)
        } else {
            (tracker, library, step)
        },
        _ => (tracker, library, step),
    }
}

/// What a toggle takes the membership of a track to be before it flips it:
/// the answer at hand, or else what the remote library holds.
pub open spec fn membership_before(
    tracker: TrackerView,
    library: Set<Seq<char>>,
    id: Seq<char>,
    force_refresh: bool,
) -> bool {
    match answer_at_hand(tracker, id, force_refresh) {
        Some(member) => member,
        None => library.contains(id),
    }
}

/// A toggle of a track with a valid id ends after at most two calls. It
/// returns the opposite of the membership it found, tells of it in its
/// event, and leaves both the cache and the remote library with what it
/// returned: a read of the cache right after the toggle gives the toggle's
/// answer. The cursor stays as it was.
pub proof fn lemma_toggle_agrees(
    tracker: TrackerView,
    facet: Facet,
    library: Set<Seq<char>>,
    named: Option<Seq<char>>,
    force_refresh: bool,
)
    requires
        target(tracker, named) is Some,
        valid_id(target(tracker, named)->Some_0),
    ensures
        ({
            let id = target(tracker, named)->Some_0;
            let member = !membership_before(tracker, library, id, force_refresh);
            let (after, remote, end) = carry_on(
                tracker,
                facet,
                library,
                toggle_step(tracker, named, force_refresh),
                2,
            );
            &&& end == Ok::<OutcomeView, TrackerError>(
                OutcomeView::Toggled(member, toggled_event(facet, member)),
            )
            &&& cached(after.cache, id) == Some(member)
            &&& remote.contains(id) == member
            &&& after.cursor == tracker.cursor
        }),
{
    let id = target(tracker, named)->Some_0;
    let first = toggle_step(tracker, named, force_refresh);
    match answer_at_hand(tracker, id, force_refresh) {
        Some(member) => {
            let pending = PendingView { call: flip(id, member), toggle: true };
            assert(first == Ok::<OutcomeView, TrackerError>(OutcomeView::Call(pending)));
            let (lib1, reply1) = answer(library, pending.call);
            let (t1, step1) = resume_step(tracker, facet, pending, reply1);
            assert(carry_on(tracker, facet, library, first, 2) == carry_on(t1, facet, lib1, step1, 1));
        },
        None => {
            let ask = PendingView { call: CallView::Contains(id), toggle: true };
            assert(first == Ok::<OutcomeView, TrackerError>(OutcomeView::Call(ask)));
            let (lib1, reply1) = answer(library, ask.call);
            let (t1, step1) = resume_step(tracker, facet, ask, reply1);
            assert(carry_on(tracker, facet, library, first, 2) == carry_on(t1, facet, lib1, step1, 1));
            let member = library.contains(id);
            let pending = PendingView { call: flip(id, member), toggle: true };
            assert(step1 == Ok::<OutcomeView, TrackerError>(OutcomeView::Call(pending)));
            let (lib2, reply2) = answer(lib1, pending.call);
            let (t2, step2) = resume_step(t1, facet, pending, reply2);
            assert(carry_on(t1, facet, lib1, step1, 1) == carry_on(t2, facet, lib2, step2, 0));
        },
    }
}

/// After a toggle of a track, a check of that track that does not ask for
/// a fresh answer is answered from the cache, with the toggle's answer: it
/// hands out no call, however often it is made.
pub proof fn lemma_check_after_toggle_is_cached(
    tracker: TrackerView,
    facet: Facet,
    library: Set<Seq<char>>,
    named: Option<Seq<char>>,
    force_refresh: bool,
)
    requires
        target(tracker, named) is Some,
        valid_id(target(tracker, named)->Some_0),
    ensures
        ({
            let id = target(tracker, named)->Some_0;
            let member = !membership_before(tracker, library, id, force_refresh);
            let (after, remote, end) = carry_on(
                tracker,
                facet,
                library,
                toggle_step(tracker, named, force_refresh),
                2,
            );
            &&& check_step(after, id, false) == Ok::<OutcomeView, TrackerError>(
                OutcomeView::Checked(member),
            )
            &&& carry_on(after, facet, remote, check_step(after, id, false), 2) == (
                after,
                remote,
                check_step(after, id, false),
            )
        }),
{
    lemma_toggle_agrees(tracker, facet, library, named, force_refresh);
}

/// Whatever is cached for a track answers a check of it at once, unless a
/// fresh answer is asked for.
pub proof fn lemma_cached_check_asks_nothing(tracker: TrackerView, id: Seq<char>)
    requires
        tracker.cache.contains_key(id),
    ensures
        check_step(tracker, id, false) == Ok::<OutcomeView, TrackerError>(
            OutcomeView::Checked(tracker.cache[id]),
        ),
{
}

} // verus!
