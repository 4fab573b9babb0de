//! The reconciliation loop, one input at a time: what each event, timer
//! tick and task end changes, publishes and asks for.
//!
//! The loop itself, its channels and its timer live outside; they feed the
//! inputs in, in the order of arrival, and carry the reactions out.

use crate::api::{
    ChangeEvent, ChangeEventView, MonitorResponse, MonitorResponseView, TrackChange,
    TrackChangeView, TrackStatus,
};
use crate::liked_tracker::LikedTracker;
use crate::play_pause_tracker::PlayPauseTracker;
use crate::text::{ends_with, is_suffix};
use crate::tracker::{
    cached, check_step, resume_step, target, toggle_step, Facet, Outcome, OutcomeView, Pending,
    PendingView, Reply, TrackerError, TrackerView,
};
use vstd::prelude::*;

verus! {

/// How long after the player has opened its state is fetched anew, in
/// milliseconds: right after opening the player does not know its track yet.
pub const OPENED_RESYNC_MILLIS: u64 = 500;

/// How long after a library change the player's state is fetched anew, in
/// milliseconds.
pub const TOGGLED_RESYNC_MILLIS: u64 = 2000;

/// How often the player's state is fetched anew while nothing else asks for
/// it, in seconds.
pub const FALLBACK_PERIOD_SECS: u64 = 3600;

/// How the operating system words a failure to bind an address that is in
/// use.
pub const ADDRESS_IN_USE: &'static str = "(os error 98)";

/// What is to be done with the fallback timer.
#[derive(Clone, Copy, Debug, PartialEq, Eq, Structural)]
pub enum TimerAction {
    /// Leave it running as it is.
    Keep,
    /// Start its period anew.
    Reset,
    /// Let it fire next after this many milliseconds.
    Arm(u64),
}

/// One of the two tasks that run beside the loop.
#[derive(Clone, Copy, Debug, PartialEq, Eq, Structural)]
pub enum Task {
    /// The adapter that listens to the player.
    Adapter,
    /// The server that consumers connect to.
    Server,
}

/// How the loop ends.
#[derive(Clone, Copy, Debug, PartialEq, Eq, Structural)]
pub enum Exit {
    /// Nothing failed.
    Clean,
    /// The address is taken: another process serves already, and this one
    /// goes on as its relay.
    Relay,
    /// The adapter failed.
    AdapterFailed,
    /// The server failed, for another reason than a taken address.
    ServerFailed,
}

/// The end of the loop: how it ends, and which task is still to be
/// cancelled.
#[derive(Clone, Copy, Debug, PartialEq, Eq, Structural)]
pub struct Stop {
    pub exit: Exit,
    pub cancel: Task,
}

/// One input of the loop.
#[derive(Debug)]
pub enum LoopInput {
    /// An event from the adapter or from a tracker.
    Event(ChangeEvent),
    /// The fallback timer fired.
    TimerFired,
    /// The adapter ended; `true` if it ended without an error.
    AdapterClosed(bool),
    /// The server ended: without an error, or with an error whose cause
    /// reads as given (empty if it names none).
    ServerClosed(Option<String>),
}

/// The mathematical value of a [`LoopInput`].
pub enum LoopInputView {
    Event(ChangeEventView),
    TimerFired,
    AdapterClosed(bool),
    ServerClosed(Option<Seq<char>>),
}

impl View for LoopInput {
    type V = LoopInputView;

    open spec fn view(&self) -> LoopInputView {
        match self {
            LoopInput::Event(event) => LoopInputView::Event(event@),
            LoopInput::TimerFired => LoopInputView::TimerFired,
            LoopInput::AdapterClosed(clean) => LoopInputView::AdapterClosed(*clean),
            LoopInput::ServerClosed(cause) => LoopInputView::ServerClosed(
                match cause {
                    Some(text) => Some(text@),
                    None => None,
                },
            ),
        }
    }
}

/// A question to the remote library that a track change has raised: is the
/// track liked? If it is, the change is published a second time.
#[derive(Debug)]
pub struct FollowUp {
    pub pending: Pending,
    pub change: TrackChange,
}

/// The mathematical value of a [`FollowUp`].
pub struct FollowUpView {
    pub pending: PendingView,
    pub change: TrackChangeView,
}

impl View for FollowUp {
    type V = FollowUpView;

    open spec fn view(&self) -> FollowUpView {
        FollowUpView { pending: self.pending@, change: self.change@ }
    }
}

/// What the loop does about one input.
#[derive(Debug)]
pub struct Reaction {
    /// The snapshot to publish, if any.
    pub publish: Option<MonitorResponse>,
    /// What to do with the fallback timer.
    pub timer: TimerAction,
    /// Whether the adapter is asked to fetch the player's state anew.
    pub request_update: bool,
    /// The question to put to the remote library, if any.
    pub follow_up: Option<FollowUp>,
    /// Whether the loop ends here, and how.
    pub stop: Option<Stop>,
}

/// The mathematical value of a [`Reaction`].
pub struct ReactionView {
    pub publish: Option<MonitorResponseView>,
    pub timer: TimerAction,
    pub request_update: bool,
    pub follow_up: Option<FollowUpView>,
    pub stop: Option<Stop>,
}

impl View for Reaction {
    type V = ReactionView;

    open spec fn view(&self) -> ReactionView {
        ReactionView {
            publish: match self.publish {
                Some(snapshot) => Some(snapshot@),
                None => None,
            },
            timer: self.timer,
            request_update: self.request_update,
            follow_up: match self.follow_up {
                Some(follow_up) => Some(follow_up@),
                None => None,
            },
            stop: self.stop,
        }
    }
}

/// The state that the loop decides on: its trackers.
pub struct Service {
    pub liked_tracker: LikedTracker,
    pub play_pause_tracker: PlayPauseTracker,
}

/// The mathematical value of a [`Service`].
pub struct ServiceView {
    /// The tracker of the liked tracks.
    pub liked: TrackerView,
    /// The current track of the play/pause tracker.
    pub play_pause: Option<Seq<char>>,
}

impl View for Service {
    type V = ServiceView;

    open spec fn view(&self) -> ServiceView {
        ServiceView {
            liked: self.liked_tracker@,
            play_pause: crate::api::opt_text(self.play_pause_tracker.current_track_id),
        }
    }
}

/// The reaction that does nothing.
pub open spec fn idle() -> ReactionView {
    ReactionView {
        publish: None,
        timer: TimerAction::Keep,
        request_update: false,
        follow_up: None,
        stop: None,
    }
}

/// The snapshot that says that nothing is playing.
pub open spec fn stopped_snapshot() -> MonitorResponseView {
    MonitorResponseView { track: None, status: TrackStatus::Stopped, is_liked: None }
}

/// The snapshot of a track change, with what is known of whether the track
/// is liked.
pub open spec fn change_snapshot(change: TrackChangeView, is_liked: Option<bool>) -> MonitorResponseView {
    MonitorResponseView { track: Some(change.track), status: change.status, is_liked }
}

/// The snapshot that announces a library change.
pub open spec fn toggled_snapshot(member: bool) -> MonitorResponseView {
    MonitorResponseView {
        track: None,
        status: if member {
            TrackStatus::Added
        } else {
            TrackStatus::Removed
        },
        is_liked: Some(member),
    }
}

/// A service whose trackers have taken `cursor` for the current track.
pub open spec fn with_cursor(service: ServiceView, cursor: Option<Seq<char>>) -> ServiceView {
    ServiceView { liked: TrackerView { cursor, ..service.liked }, play_pause: cursor }
}

/// How the loop ends when the server has ended.
pub open spec fn server_exit(cause: Option<Seq<char>>) -> Exit {
    match cause {
        None => Exit::Clean,
        Some(text) => if is_suffix(ADDRESS_IN_USE@, text) {
            Exit::Relay
        } else {
            Exit::ServerFailed
        },
    }
}

/// What one input does to the service, and the reaction to it.
///
/// A track change with an id moves the cursor to it and is published at
/// once, with what the cache knows of the track; the timer starts anew if
/// artist and title are there; if the cache knows nothing, the remote
/// library is asked. A track change without an id, and the closing of the
/// player, clear the cursor and publish that nothing is playing. The
/// opening of the player and a library change arm the timer; the library
/// change is published too. The timer asks the adapter for an update. The
/// end of either task ends the loop and has the other task cancelled.
pub open spec fn monitor_step(service: ServiceView, input: LoopInputView) -> (
    ServiceView,
    ReactionView,
) {
    match input {
        LoopInputView::Event(ChangeEventView::TrackChange(change)) => match change.track.id {
            Some(id) => (
                with_cursor(service, Some(id)),
                ReactionView {
                    publish: Some(change_snapshot(change, cached(service.liked.cache, id))),
                    timer: if change.track.artist is Some && change.track.title is Some {
                        TimerAction::Reset
                    } else {
                        TimerAction::Keep
                    },
                    follow_up: match check_step(service.liked, id, false) {
                        Ok(OutcomeView::Call(pending)) => Some(FollowUpView { pending, change }),
                        _ => None,
                    },
                    ..idle()
                },
            ),
            None => (
                with_cursor(service, None),
                ReactionView { publish: Some(stopped_snapshot()), ..idle() },
            ),
        },
        LoopInputView::Event(ChangeEventView::SpotifyOpened) => (
            service,
            ReactionView { timer: TimerAction::Arm(OPENED_RESYNC_MILLIS), ..idle() },
        ),
        LoopInputView::Event(ChangeEventView::SpotifyClosed) => (
            with_cursor(service, None),
            ReactionView { publish: Some(stopped_snapshot()), ..idle() },
        ),
        LoopInputView::Event(ChangeEventView::TrackLiked(member)) => (
            service,
            ReactionView {
                publish: Some(toggled_snapshot(member)),
                timer: TimerAction::Arm(TOGGLED_RESYNC_MILLIS),
                ..idle()
            },
        ),
        LoopInputView::Event(ChangeEventView::TrackSaved(member)) => (
            service,
            ReactionView {
                publish: Some(toggled_snapshot(member)),
                timer: TimerAction::Arm(TOGGLED_RESYNC_MILLIS),
                ..idle()
            },
        ),
        LoopInputView::TimerFired => (service, ReactionView { request_update: true, ..idle() }),
        LoopInputView::AdapterClosed(clean) => (
            service,
            ReactionView {
                stop: Some(
                    Stop {
                        exit: if clean {
                            Exit::Clean
                        } else {
                            Exit::AdapterFailed
                        },
                        cancel: Task::Server,
                    },
                ),
                ..idle()
            },
        ),
        LoopInputView::ServerClosed(cause) => (
            service,
            ReactionView {
                stop: Some(Stop { exit: server_exit(cause), cancel: Task::Adapter }),
                ..idle()
            },
        ),
    }
}

/// What the answer to a follow-up question does to the service, and the
/// snapshot that it leads to, if any.
///
/// The tracker takes the reply in. If the track turns out to be liked, the
/// change is published again, as liked; if not, or if the reply does not
/// answer the question, nothing is published.
pub open spec fn checked_step(service: ServiceView, follow_up: FollowUpView, reply: Reply) -> (
    ServiceView,
    Option<MonitorResponseView>,
) {
    let (liked, step) = resume_step(service.liked, Facet::Liked, follow_up.pending, reply);
    (
        ServiceView { liked, ..service },
        if step == Ok::<OutcomeView, TrackerError>(OutcomeView::Checked(true)) {
            Some(change_snapshot(follow_up.change, Some(true)))
        } else {
            None
        },
    )
}

/// The reaction that does nothing.
fn idle_reaction() -> (reaction: Reaction)
    ensures
        reaction@ == idle(),
{
    Reaction {
        publish: None,
        timer: TimerAction::Keep,
        request_update: false,
        follow_up: None,
        stop: None,
    }
}

/// The reaction that publishes one snapshot and arms the timer as told.
fn publishing(snapshot: MonitorResponse, timer: TimerAction) -> (reaction: Reaction)
    ensures
        reaction@ == (ReactionView { publish: Some(snapshot@), timer, ..idle() }),
{
    Reaction {
        publish: Some(snapshot),
        timer,
        request_update: false,
        follow_up: None,
        stop: None,
    }
}

/// The reaction that ends the loop.
fn stopping(exit: Exit, cancel: Task) -> (reaction: Reaction)
    ensures
        reaction@ == (ReactionView { stop: Some(Stop { exit, cancel }), ..idle() }),
{
    Reaction {
        publish: None,
        timer: TimerAction::Keep,
        request_update: false,
        follow_up: None,
        stop: Some(Stop { exit, cancel }),
    }
}

/// The snapshot that says that nothing is playing.
fn stopped() -> (snapshot: MonitorResponse)
    ensures
        snapshot@ == stopped_snapshot(),
{
    MonitorResponse { track: None, status: TrackStatus::Stopped, is_liked: None }
}

/// The snapshot that announces a library change.
fn toggled(member: bool) -> (snapshot: MonitorResponse)
    ensures
        snapshot@ == toggled_snapshot(member),
{
    MonitorResponse {
        track: None,
        status: if member {
            TrackStatus::Added
        } else {
            TrackStatus::Removed
        },
        is_liked: Some(member),
    }
}

impl Service {
    /// A service whose trackers know nothing and have no current track.
    pub fn new() -> (service: Self)
        ensures
            service@ == (ServiceView {
                liked: TrackerView { cache: Map::empty(), cursor: None },
                play_pause: None,
            }),
    {
        Service { liked_tracker: LikedTracker::new(), play_pause_tracker: PlayPauseTracker::new() }
    }

    /// Takes `cursor` for the current track, in every tracker.
    fn move_cursor(&mut self, cursor: Option<String>)
        ensures
            final(self)@ == with_cursor(old(self)@, crate::api::opt_text(cursor)),
    {
        self.play_pause_tracker.current_track_id = crate::api::copy_opt_text(&cursor);
        self.liked_tracker.tracker.current_track_id = cursor;
    }

    /// Takes in one input of the loop and says what is to be done about it.
    pub fn monitor(&mut self, input: LoopInput) -> (reaction: Reaction)
        ensures
            (final(self)@, reaction@) == monitor_step(old(self)@, input@),
    {
        match input {
            LoopInput::Event(ChangeEvent::TrackChange(change)) => {
                self.move_cursor(crate::api::copy_opt_text(&change.track.id));
                match crate::api::copy_opt_text(&change.track.id) {
                    Some(id) => {
                        let is_liked = self.liked_tracker.is_liked_cached(&id);
                        let timer = if change.track.artist.is_some() && change.track.title.is_some() {
                            TimerAction::Reset
                        } else {
                            TimerAction::Keep
                        };
                        let snapshot = MonitorResponse {
                            track: Some(change.track.clone()),
                            status: change.status,
                            is_liked,
                        };
                        let follow_up = match self.liked_tracker.check_liked(id, false) {
                            Ok(Outcome::Call(pending)) => Some(FollowUp { pending, change }),
                            _ => None,
                        };
                        Reaction {
                            publish: Some(snapshot),
                            timer,
                            request_update: false,
                            follow_up,
                            stop: None,
                        }
                    },
                    None => publishing(stopped(), TimerAction::Keep),
                }
            },
            LoopInput::Event(ChangeEvent::SpotifyOpened) => Reaction {
                timer: TimerAction::Arm(OPENED_RESYNC_MILLIS),
                ..idle_reaction()
            },
            LoopInput::Event(ChangeEvent::SpotifyClosed) => {
                self.move_cursor(None);
                publishing(stopped(), TimerAction::Keep)
            },
            LoopInput::Event(ChangeEvent::TrackLiked(member)) => publishing(
                toggled(member),
                TimerAction::Arm(TOGGLED_RESYNC_MILLIS),
            ),
            LoopInput::Event(ChangeEvent::TrackSaved(member)) => publishing(
                toggled(member),
                TimerAction::Arm(TOGGLED_RESYNC_MILLIS),
            ),
            LoopInput::TimerFired => Reaction { request_update: true, ..idle_reaction() },
            LoopInput::AdapterClosed(clean) => stopping(
                if clean {
                    Exit::Clean
                } else {
                    Exit::AdapterFailed
                },
                Task::Server,
            ),
            LoopInput::ServerClosed(cause) => {
                let exit = match cause {
                    None => Exit::Clean,
                    Some(text) => if ends_with(text.as_str(), ADDRESS_IN_USE) {
                        Exit::Relay
                    } else {
                        Exit::ServerFailed
                    },
                };
                stopping(exit, Task::Adapter)
            },
        }
    }

    /// Takes in the remote library's answer to a follow-up question and
    /// returns the snapshot to publish, if the answer calls for one.
    pub fn checked(&mut self, follow_up: FollowUp, reply: Reply) -> (second: Option<
        MonitorResponse,
    >)
        ensures
            final(self)@ == checked_step(old(self)@, follow_up@, reply).0,
            match second {
                Some(snapshot) => checked_step(old(self)@, follow_up@, reply).1 == Some(snapshot@),
                None => checked_step(old(self)@, follow_up@, reply).1 is None,
            },
    {
        match self.liked_tracker.resume(follow_up.pending, reply) {
            Ok(Outcome::Checked(true)) => Some(
                MonitorResponse {
                    track: Some(follow_up.change.track),
                    status: follow_up.change.status,
                    is_liked: Some(true),
                },
            ),
            _ => None,
        }
    }
}

/// A track change without an id publishes that nothing is playing, with no
/// track and no membership, and clears the cursor, whatever the service
/// held before; it asks nothing of the remote library and leaves the timer
/// alone.
pub proof fn lemma_change_without_id_stops(service: ServiceView, change: TrackChangeView)
    requires
        change.track.id is None,
    ensures
        ({
            let (after, reaction) = monitor_step(
                service,
                LoopInputView::Event(ChangeEventView::TrackChange(change)),
            );
            &&& reaction == (ReactionView { publish: Some(stopped_snapshot()), ..idle() })
            &&& after.liked.cursor is None
            &&& after.play_pause is None
            &&& after.liked.cache == service.liked.cache
        }),
{
}

/// What is published about a track never runs ahead of the cache: the
/// first snapshot of a track change carries what the cache held when the
/// change came in, and a second snapshot is published only once the cache
/// holds that the track is liked.
pub proof fn lemma_cache_is_written_before_publishing(
    service: ServiceView,
    change: TrackChangeView,
    reply: Reply,
)
    requires
        change.track.id is Some,
    ensures
        ({
            let id = change.track.id->Some_0;
            let (after, reaction) = monitor_step(
                service,
                LoopInputView::Event(ChangeEventView::TrackChange(change)),
            );
            &&& reaction.publish == Some(change_snapshot(change, cached(service.liked.cache, id)))
            &&& after.liked.cursor == Some(id)
            &&& reaction.follow_up is Some ==> {
                let (last, second) = checked_step(after, reaction.follow_up->Some_0, reply);
                &&& cached(service.liked.cache, id) is None
                &&& second is Some <==> reply == Reply::Membership(true)
                &&& second is Some ==> second == Some(change_snapshot(change, Some(true)))
                    && cached(last.liked.cache, id) == Some(true)
                &&& reply is Membership ==> cached(last.liked.cache, id) == Some(
                    reply->Membership_0,
                )
            }
        }),
{
}

/// The cursor decides what a toggle without a named track is about: after
/// a track change with an id it is that track, and after a track change
/// without an id, or after the player has closed, there is nothing to
/// toggle.
pub proof fn lemma_toggle_follows_the_cursor(
    service: ServiceView,
    change: TrackChangeView,
    force_refresh: bool,
)
    ensures
        ({
            let (after, _reaction) = monitor_step(
                service,
                LoopInputView::Event(ChangeEventView::TrackChange(change)),
            );
            &&& target(after.liked, None) == change.track.id
            &&& change.track.id is None ==> toggle_step(after.liked, None, force_refresh) == Err::<
                OutcomeView,
                TrackerError,
            >(TrackerError::NoCurrentTrack)
        }),
        ({
            let (after, _reaction) = monitor_step(
                service,
                LoopInputView::Event(ChangeEventView::SpotifyClosed),
            );
            toggle_step(after.liked, None, force_refresh) == Err::<OutcomeView, TrackerError>(
                TrackerError::NoCurrentTrack,
            )
        }),
{
}

/// How many times a relay tries to connect to the serving process before
/// it gives up.
pub const RELAY_CONNECT_ATTEMPTS: u32 = 6;

/// How long a relay waits after its first failed attempt to connect, in
/// milliseconds.
pub const RELAY_FIRST_DELAY_MILLIS: u64 = 50;

/// The wait after the given number of failed attempts, in milliseconds:
/// twice as long after each.
pub open spec fn backoff(failed: nat) -> nat
    decreases failed,
{
    if failed <= 1 {
        RELAY_FIRST_DELAY_MILLIS as nat
    } else {
        2 * backoff((failed - 1) as nat)
    }
}

/// The wait doubles with each failure, so after `failed` failures it is the
/// first wait times two to the power of `failed - 1`; within the attempts
/// that a relay makes it stays below a second.
pub proof fn lemma_backoff_is_bounded(failed: nat)
    requires
        failed < RELAY_CONNECT_ATTEMPTS,
    ensures
        backoff(failed) <= 16 * RELAY_FIRST_DELAY_MILLIS,
        failed >= 1 ==> backoff(failed + 1) == 2 * backoff(failed),
{
    reveal_with_fuel(backoff, 7);
}

/// What a relay does after `failed` attempts to connect have failed: it
/// waits and tries again, or gives up once all attempts are spent.
pub open spec fn retry_after(failed: nat) -> Option<nat> {
    if 1 <= failed < RELAY_CONNECT_ATTEMPTS {
        Some(backoff(failed))
    } else {
        None
    }
}

/// The wait before the next attempt of a relay to connect, in
/// milliseconds, after `failed` attempts have failed; `None` when it is
/// time to give up (or when nothing has failed yet).
pub fn relay_retry_delay(failed: u32) -> (delay: Option<u64>)
    ensures
        match delay {
            Some(millis) => retry_after(failed as nat) == Some(millis as nat),
            None => retry_after(failed as nat) is None,
        },
{
    if failed < 1 || failed >= RELAY_CONNECT_ATTEMPTS {
        return None;
    }
    let mut millis: u64 = RELAY_FIRST_DELAY_MILLIS;
    let mut done: u32 = 1;
    while done < failed
        invariant
            1 <= done <= failed < RELAY_CONNECT_ATTEMPTS,
            millis == backoff(done as nat),
        decreases failed - done,
    {
        proof {
            lemma_backoff_is_bounded(done as nat);
        }
        millis = millis * 2;
        done += 1;
    }
    Some(millis)
}

} // verus!
