//! One connection to the sound server: what each of its events leads to.
use std::collections::HashSet;
use vstd::prelude::*;

use crate::text;
use crate::volume::identity;
use crate::volume::identity::{matches_stream_identity, StreamIdentity};
use crate::volume::level;
use crate::volume::level::{
    planned_actions, raw_to_percent, DesiredVolume, EventEmitter, PlannedAction, VolumeCommand,
    VolumeEvent,
};
use crate::volume::tracker;
use crate::volume::tracker::{StreamTracker, StreamUpdate};

verus! {

/// How long the controller waits for a command before it looks after the connection again.
pub const POLL_INTERVAL_MS: u64 = 10;

/// How long the controller waits before it connects again.
pub const RETRY_INTERVAL_MS: u64 = 2_000;

/// The property that says what kind of client the controller is, and its value.
pub const MEDIA_CATEGORY: &'static str = "media.category";

pub const MANAGER_CATEGORY: &'static str = "Manager";

/// How a connection ends.
#[derive(Debug, Clone, Copy, PartialEq, Eq, Structural)]
pub enum ConnectionOutcome {
    /// Connect again after a while.
    Retry,
    /// Nobody is left to send commands.
    Shutdown,
}

/// The sound server's report of one playback stream.
#[derive(Debug, Clone)]
pub struct StreamReport {
    pub index: u32,
    pub instance_marker: Option<String>,
    pub process_id: Option<String>,
    pub has_volume: bool,
    pub volume_writable: bool,
    /// The channels of the stream.
    pub channels: u8,
    /// The raw level of the loudest channel.
    pub raw_volume: u32,
    pub muted: bool,
}

/// What an event leads to: a state to publish, and requests to the sound server.
#[derive(Debug)]
pub struct Reaction {
    pub event: Option<VolumeEvent>,
    pub actions: Vec<PlannedAction>,
}

/// What a listing of streams brings.
#[derive(Debug, Clone)]
pub enum Listing {
    Item(StreamReport),
    End,
    Error,
}

/// What happened to a stream.
#[derive(Debug, Clone, Copy, PartialEq, Eq, Structural)]
pub enum Operation {
    New,
    Changed,
    Removed,
    Other,
}

/// The state of the connection to the sound server.
#[derive(Debug, Clone, Copy, PartialEq, Eq, Structural)]
pub enum ServerState {
    Ready,
    Failed,
    Terminated,
    Other,
}

/// What waiting for a command brought.
#[derive(Debug, Clone, Copy, PartialEq, Eq, Structural)]
pub enum CommandPoll {
    Command(VolumeCommand),
    Timeout,
    Disconnected,
}

/// What comes next while the connection is being made.
#[derive(Debug, Clone, Copy, PartialEq, Eq, Structural)]
pub enum Connecting {
    Ended(ConnectionOutcome),
    Ready,
    Wait,
}

/// What comes next once the connection stands.
#[derive(Debug)]
pub enum Serving {
    Ended(ConnectionOutcome),
    Continue(Vec<PlannedAction>),
}

/// The characters of a text that may be missing.
pub open spec fn text_of(s: Option<String>) -> Option<Seq<char>> {
    match s {
        Some(s) => Some(s@),
        None => None,
    }
}

/// Whether a reported stream belongs to this instance and its volume can be set.
pub open spec fn is_controllable(report: StreamReport, identity: StreamIdentity) -> bool {
    &&& identity::belongs_to(text_of(report.instance_marker), text_of(report.process_id), identity)
    &&& report.has_volume
    &&& report.volume_writable
    &&& report.channels > 0
}

/// Whether `r` publishes `event`, if it is news, and asks for nothing.
pub open spec fn only_publishes(last: VolumeEvent, event: VolumeEvent, r: Reaction) -> bool {
    r.event == level::news(last, event) && r.actions@.len() == 0
}

/// A connection to the sound server.
#[derive(Debug)]
pub struct VolumeConnection {
    pub tracker: StreamTracker,
    pub emitter: EventEmitter,
    /// The streams whose state is to be asked for.
    pub refreshes: HashSet<u32>,
    pub subscription_failed: bool,
}

impl VolumeConnection {
    /// Whether `after` and `r` are what the report of one stream leads to. A stream that can be
    /// controlled is tracked and brought to the desired state; any other is forgotten.
    pub open spec fn takes_report(
        self,
        identity: StreamIdentity,
        report: StreamReport,
        after: VolumeConnection,
        r: Reaction,
    ) -> bool {
        let percent = level::percent_of_raw(report.raw_volume) as u32;
        let last = self.emitter.last_event;
        &&& after.refreshes == self.refreshes
        &&& after.subscription_failed == self.subscription_failed
        &&& if is_controllable(report, identity) {
            &&& after.tracker@ == self.tracker@.after_report(
                report.index,
                percent,
                report.muted,
                report.channels,
            )
            &&& match self.tracker@.update_for(report.index, percent, report.muted) {
                StreamUpdate::Publish(event) => {
                    &&& only_publishes(last, event, r)
                    &&& after.emitter.last_event == event
                },
                StreamUpdate::Apply(desired) => {
                    &&& r.event is None
                    &&& after.emitter == self.emitter
                    &&& r.actions@ == seq![
                        level::volume_action(report.index, report.channels, desired),
                        level::mute_action(report.index, desired),
                    ]
                },
                StreamUpdate::PublishAndApply { event, desired, except } => {
                    &&& r.event == level::news(last, event)
                    &&& after.emitter.last_event == event
                    &&& exists|keys: Seq<u32>| #[trigger]
                        tracker::ascending_keys(after.tracker@.streams, keys)
                            && tracker::requests_for(
                            after.tracker@.streams,
                            keys.filter(after.tracker@.waits_for(desired, except)),
                            desired,
                            r.actions@,
                        )
                },
            }
        } else {
            &&& self.tracker@.loses(report.index, after.tracker@)
            &&& only_publishes(last, after.tracker@.event(), r)
            &&& after.emitter.last_event == after.tracker@.event()
        }
    }
}

/// What was published after the report of a stream is what the end of the listing would publish:
/// where no other stream gives the state, a listing that ends takes nothing back.
pub proof fn law_listing_end_takes_nothing_back(
    connection: VolumeConnection,
    identity: StreamIdentity,
    report: StreamReport,
    after: VolumeConnection,
    r: Reaction,
)
    requires
        connection.tracker@.wf(),
        connection.takes_report(identity, report, after, r),
        connection.tracker@.authoritative_index is None || !is_controllable(report, identity),
        connection.emitter.last_event == connection.tracker@.event(),
    ensures
        after.emitter.last_event == after.tracker@.event(),
        level::news(after.emitter.last_event, after.tracker@.event()) is None,
        after.tracker@.wf(),
{
}

/// A stream of another instance, or one whose volume cannot be set, is asked for nothing and not
/// tracked.
pub proof fn law_other_streams_are_left_alone(
    connection: VolumeConnection,
    identity: StreamIdentity,
    report: StreamReport,
    after: VolumeConnection,
    r: Reaction,
)
    requires
        connection.takes_report(identity, report, after, r),
        (report.instance_marker matches Some(marker) && marker@ != identity.marker@)
            || !report.has_volume || !report.volume_writable || report.channels == 0,
    ensures
        r.actions@.len() == 0,
        !after.tracker@.streams.contains_key(report.index),
        after.tracker@.desired == connection.tracker@.desired,
{
}

/// A stream of this instance whose volume can be set is tracked with the percentage nearest to its
/// raw level; where it is new and differs from the desired state, it is asked for that, and nothing
/// is published.
pub proof fn law_own_stream_is_brought_to_the_desired_state(
    connection: VolumeConnection,
    identity: StreamIdentity,
    report: StreamReport,
    after: VolumeConnection,
    r: Reaction,
    desired: DesiredVolume,
)
    requires
        connection.tracker@.wf(),
        connection.takes_report(identity, report, after, r),
        report.instance_marker matches Some(marker) && marker@ == identity.marker@,
        report.has_volume,
        report.volume_writable,
        report.channels > 0,
    ensures
        after.tracker@.streams.contains_key(report.index),
        -32768 <= after.tracker@.streams[report.index].raw_percent * 65536 - report.raw_volume * 100
            <= 32768,
        after.tracker@.streams[report.index].muted == report.muted,
        connection.tracker@.desired == Some(desired) && !connection.tracker@.streams.contains_key(
            report.index,
        ) && (report.muted != desired.muted || after.tracker@.streams[report.index].raw_percent
            != desired.raw_percent) ==> {
            &&& r.event is None
            &&& r.actions@.len() == 2
            &&& r.actions@[0] matches PlannedAction::SetVolume { index, channels, raw_volume }
                && index == report.index && channels == report.channels
            &&& r.actions@[1] == (PlannedAction::SetMute {
                index: report.index,
                muted: desired.muted,
            })
        },
{
    level::law_percentage_is_the_nearest(report.raw_volume);
    let percent = level::percent_of_raw(report.raw_volume) as u32;
    tracker::law_report_is_remembered(
        connection.tracker@,
        report.index,
        percent,
        report.muted,
        report.channels,
        if report.index == 0 {
            1
        } else {
            0
        },
    );
}

/// A new stream of this instance that is already in the desired state is asked for nothing, and its
/// state is published where it is news.
pub proof fn law_stream_in_the_desired_state_is_published(
    connection: VolumeConnection,
    identity: StreamIdentity,
    report: StreamReport,
    after: VolumeConnection,
    r: Reaction,
    desired: DesiredVolume,
)
    requires
        connection.tracker@.wf(),
        connection.takes_report(identity, report, after, r),
        report.instance_marker matches Some(marker) && marker@ == identity.marker@,
        report.has_volume,
        report.volume_writable,
        report.channels > 0,
        connection.tracker@.desired == Some(desired),
        !connection.tracker@.streams.contains_key(report.index),
        desired.raw_percent == level::percent_of_raw(report.raw_volume),
        desired.muted == report.muted,
    ensures
        ({
            let event = VolumeEvent::Available {
                raw_percent: desired.raw_percent,
                muted: desired.muted,
            };
            &&& r.actions@.len() == 0
            &&& after.emitter.last_event == event
            &&& connection.emitter.last_event != event ==> r.event == Some(event)
            &&& connection.emitter.last_event == event ==> r.event is None
        }),
{
}

/// A text that is there is its characters, and one that is missing stays missing.
pub proof fn law_reported_text_is_its_characters(s: String)
    ensures
        text_of(Some(s)) == Some(s@),
        text_of(None) is None,
{
}

/// Of several commands the newest counts.
pub proof fn law_newest_command_counts(
    pending: Seq<VolumeCommand>,
    newest: VolumeCommand,
    first: VolumeCommand,
)
    ensures
        last_command(pending.push(newest), first) == newest,
        last_command(Seq::empty(), first) == first,
{
}

/// The last of `pending`, or `latest` where there are none.
pub open spec fn last_command(pending: Seq<VolumeCommand>, latest: VolumeCommand) -> VolumeCommand {
    if pending.len() > 0 {
        pending.last()
    } else {
        latest
    }
}

/// Of a command and those that wait behind it, the latest one.
pub fn drain_to_latest(pending: &Vec<VolumeCommand>, latest: VolumeCommand) -> (r: VolumeCommand)
    ensures
        r == last_command(pending@, latest),
{
    let mut r: VolumeCommand = latest;
    let mut i: usize = 0;
    while i < pending.len()
        invariant
            i <= pending@.len(),
            r == last_command(pending@.take(i as int), latest),
        decreases pending.len() - i,
    {
        r = pending[i];
        i = i + 1;
    }
    assert(pending@.take(i as int) =~= pending@);
    r
}

/// Takes the commands that wait. The last of them says what is desired; the connection goes on
/// unless every sender is gone.
pub fn receive_pending_commands(
    pending: &Vec<VolumeCommand>,
    disconnected: bool,
    desired: &mut Option<DesiredVolume>,
) -> (r: ConnectionOutcome)
    ensures
        *final(desired) == (if pending@.len() > 0 {
            Some(DesiredVolume::of_command(pending@.last()))
        } else {
            *old(desired)
        }),
        r == (if disconnected {
            ConnectionOutcome::Shutdown
        } else {
            ConnectionOutcome::Retry
        }),
{
    if pending.len() > 0 {
        *desired = Some(DesiredVolume::from_command(drain_to_latest(pending, pending[0])));
    }
    if disconnected {
        ConnectionOutcome::Shutdown
    } else {
        ConnectionOutcome::Retry
    }
}

/// One turn while the connection is being made. `iterated` says whether the main loop turned;
/// `pending` and `disconnected` are what the command channel held after that, and `state` is the
/// connection's state.
pub fn connecting_step(
    iterated: bool,
    pending: &Vec<VolumeCommand>,
    disconnected: bool,
    state: ServerState,
    desired: &mut Option<DesiredVolume>,
) -> (r: Connecting)
    ensures
        *final(desired) == (if iterated && pending@.len() > 0 {
            Some(DesiredVolume::of_command(pending@.last()))
        } else {
            *old(desired)
        }),
        r == (if !iterated {
            Connecting::Ended(ConnectionOutcome::Retry)
        } else if disconnected {
            Connecting::Ended(ConnectionOutcome::Shutdown)
        } else {
            match state {
                ServerState::Ready => Connecting::Ready,
                ServerState::Failed => Connecting::Ended(ConnectionOutcome::Retry),
                ServerState::Terminated => Connecting::Ended(ConnectionOutcome::Retry),
                ServerState::Other => Connecting::Wait,
            }
        }),
{
    if !iterated {
        return Connecting::Ended(ConnectionOutcome::Retry);
    }
    if receive_pending_commands(pending, disconnected, desired) == ConnectionOutcome::Shutdown {
        return Connecting::Ended(ConnectionOutcome::Shutdown);
    }
    match state {
        ServerState::Ready => Connecting::Ready,
        ServerState::Failed | ServerState::Terminated => Connecting::Ended(
            ConnectionOutcome::Retry,
        ),
        ServerState::Other => Connecting::Wait,
    }
}

/// What a wait before the next attempt brings: `None` while it goes on, else whether to connect
/// again. A command that arrives meanwhile says what is desired.
pub fn wait_before_retry(
    poll: CommandPoll,
    now_ms: u64,
    deadline_ms: u64,
    desired: &mut Option<DesiredVolume>,
) -> (r: Option<bool>)
    ensures
        now_ms >= deadline_ms ==> r == Some(true) && *final(desired) == *old(desired),
        now_ms < deadline_ms ==> match poll {
            CommandPoll::Command(command) => r is None && *final(desired) == Some(
                DesiredVolume::of_command(command),
            ),
            CommandPoll::Timeout => r == Some(true) && *final(desired) == *old(desired),
            CommandPoll::Disconnected => r == Some(false) && *final(desired) == *old(desired),
        },
{
    if now_ms >= deadline_ms {
        return Some(true);
    }
    match poll {
        CommandPoll::Command(command) => {
            *desired = Some(DesiredVolume::from_command(command));
            None
        },
        CommandPoll::Timeout => Some(true),
        CommandPoll::Disconnected => Some(false),
    }
}

/// What follows the end of a connection: `None` if the controller is done, else the state to
/// publish, if it is news, before the next attempt.
pub fn after_connection(emitter: &mut EventEmitter, outcome: ConnectionOutcome) -> (r: Option<
    Option<VolumeEvent>,
>)
    ensures
        outcome is Shutdown ==> r is None && *final(emitter) == *old(emitter),
        outcome is Retry ==> final(emitter).last_event == VolumeEvent::Disconnected && r == Some(
            level::news(old(emitter).last_event, VolumeEvent::Disconnected),
        ),
{
    match outcome {
        ConnectionOutcome::Shutdown => None,
        ConnectionOutcome::Retry => Some(emitter.emit(VolumeEvent::Disconnected)),
    }
}

impl VolumeConnection {
    /// A connection that knows no stream yet.
    pub fn new(desired: Option<DesiredVolume>, emitter: EventEmitter) -> (r: VolumeConnection)
        ensures
            r.tracker@.streams == Map::<u32, tracker::TrackedStream>::empty(),
            r.tracker@.desired == desired,
            r.tracker@.authoritative_index is None,
            r.tracker@.wf(),
            r.emitter == emitter,
            r.refreshes@ == Set::<u32>::empty(),
            !r.subscription_failed,
    {
        VolumeConnection {
            tracker: StreamTracker::new(desired),
            emitter,
            refreshes: HashSet::new(),
            subscription_failed: false,
        }
    }

    /// Publishes the tracker's state, if it is news.
    pub fn emit_current(&mut self) -> (r: Option<VolumeEvent>)
        ensures
            r == level::news(old(self).emitter.last_event, old(self).tracker@.event()),
            final(self).emitter.last_event == old(self).tracker@.event(),
            final(self).tracker == old(self).tracker,
            final(self).refreshes == old(self).refreshes,
            final(self).subscription_failed == old(self).subscription_failed,
    {
        let event: VolumeEvent = self.tracker.current_event();
        self.emitter.emit(event)
    }

    /// Takes the report of one stream.
    pub fn update_from_info(&mut self, identity: &StreamIdentity, report: &StreamReport) -> (r:
        Reaction)
        ensures
            old(self).takes_report(*identity, *report, *final(self), r),
            old(self).tracker@.wf() ==> final(self).tracker@.wf(),
    {
        let marker: Option<&str> = match &report.instance_marker {
            Some(s) => Some(s.as_str()),
            None => None,
        };
        let process: Option<&str> = match &report.process_id {
            Some(s) => Some(s.as_str()),
            None => None,
        };
        assert(text::optional(marker) == text_of(report.instance_marker));
        assert(text::optional(process) == text_of(report.process_id));
        let matches: bool = matches_stream_identity(marker, process, identity);
        if matches && report.has_volume && report.volume_writable && report.channels > 0 {
            let update: StreamUpdate = self.tracker.observe(
                report.index,
                raw_to_percent(report.raw_volume),
                report.muted,
                report.channels,
            );
            match update {
                StreamUpdate::Publish(event) => Reaction {
                    event: self.emitter.emit(event),
                    actions: Vec::new(),
                },
                StreamUpdate::Apply(desired) => {
                    let pair: [PlannedAction; 2] = planned_actions(
                        report.index,
                        report.channels,
                        desired,
                    );
                    let mut actions: Vec<PlannedAction> = Vec::new();
                    actions.push(pair[0]);
                    actions.push(pair[1]);
                    assert(actions@ =~= pair@);
                    Reaction { event: None, actions }
                },
                StreamUpdate::PublishAndApply { event, desired, except } => Reaction {
                    event: self.emitter.emit(event),
                    actions: self.tracker.plan_except(desired, except),
                },
            }
        } else {
            self.tracker.remove(report.index);
            Reaction { event: self.emit_current(), actions: Vec::new() }
        }
    }

    /// Takes one item of the listing of all streams. An error forgets every stream and fails the
    /// connection.
    pub fn on_all_streams(&mut self, identity: &StreamIdentity, listing: &Listing) -> (r: Reaction)
        ensures
            old(self).tracker@.wf() ==> final(self).tracker@.wf(),
            final(self).refreshes == old(self).refreshes,
            listing is Item ==> old(self).takes_report(
                *identity,
                listing->Item_0,
                *final(self),
                r,
            ),
            listing is End ==> {
                &&& final(self).tracker == old(self).tracker
                &&& final(self).subscription_failed == old(self).subscription_failed
                &&& only_publishes(old(self).emitter.last_event, old(self).tracker@.event(), r)
                &&& final(self).emitter.last_event == old(self).tracker@.event()
            },
            listing is Error ==> {
                &&& final(self).tracker@.streams == Map::<u32, tracker::TrackedStream>::empty()
                &&& final(self).tracker@.desired == old(self).tracker@.desired
                &&& final(self).tracker@.authoritative_index is None
                &&& final(self).subscription_failed
                &&& only_publishes(old(self).emitter.last_event, VolumeEvent::Unavailable, r)
                &&& final(self).emitter.last_event == VolumeEvent::Unavailable
            },
    {
        match listing {
            Listing::Item(report) => self.update_from_info(identity, report),
            Listing::End => Reaction { event: self.emit_current(), actions: Vec::new() },
            Listing::Error => {
                self.tracker.clear();
                let event: Option<VolumeEvent> = self.emit_current();
                self.subscription_failed = true;
                Reaction { event, actions: Vec::new() }
            },
        }
    }

    /// Takes one item of the listing of stream `index` alone. A stream that is not listed, or
    /// whose listing fails, is forgotten. `saw_item` says whether it has been listed so far.
    pub fn on_stream(
        &mut self,
        identity: &StreamIdentity,
        index: u32,
        saw_item: &mut bool,
        listing: &Listing,
    ) -> (r: Reaction)
        ensures
            old(self).tracker@.wf() ==> final(self).tracker@.wf(),
            final(self).refreshes == old(self).refreshes,
            final(self).subscription_failed == old(self).subscription_failed,
            *final(saw_item) == (*old(saw_item) || listing is Item),
            listing is Item ==> old(self).takes_report(
                *identity,
                listing->Item_0,
                *final(self),
                r,
            ),
            listing is End && *old(saw_item) ==> {
                &&& final(self).tracker == old(self).tracker
                &&& final(self).emitter == old(self).emitter
                &&& r.event is None
                &&& r.actions@.len() == 0
            },
            listing is Error || (listing is End && !*old(saw_item)) ==> {
                &&& old(self).tracker@.loses(index, final(self).tracker@)
                &&& only_publishes(old(self).emitter.last_event, final(self).tracker@.event(), r)
                &&& final(self).emitter.last_event == final(self).tracker@.event()
            },
    {
        match listing {
            Listing::Item(report) => {
                *saw_item = true;
                self.update_from_info(identity, report)
            },
            Listing::End => {
                if *saw_item {
                    Reaction { event: None, actions: Vec::new() }
                } else {
                    self.tracker.remove(index);
                    Reaction { event: self.emit_current(), actions: Vec::new() }
                }
            },
            Listing::Error => {
                self.tracker.remove(index);
                Reaction { event: self.emit_current(), actions: Vec::new() }
            },
        }
    }

    /// Takes the notice that something happened to stream `index`, or to something that is no
    /// stream. A stream that is gone is forgotten at once; the state of any other is asked for.
    pub fn on_notice(&mut self, is_stream: bool, operation: Operation, index: u32) -> (r: Option<
        VolumeEvent,
    >)
        ensures
            old(self).tracker@.wf() ==> final(self).tracker@.wf(),
            final(self).subscription_failed == old(self).subscription_failed,
            is_stream && operation is Removed ==> {
                &&& final(self).refreshes@ == old(self).refreshes@.remove(index)
                &&& old(self).tracker@.loses(index, final(self).tracker@)
                &&& r == level::news(old(self).emitter.last_event, final(self).tracker@.event())
                &&& final(self).emitter.last_event == final(self).tracker@.event()
            },
            !(is_stream && operation is Removed) ==> {
                &&& r is None
                &&& final(self).tracker == old(self).tracker
                &&& final(self).emitter == old(self).emitter
                &&& final(self).refreshes@ == if is_stream && (operation is New
                    || operation is Changed) {
                    old(self).refreshes@.insert(index)
                } else {
                    old(self).refreshes@
                }
            },
    {
        if !is_stream {
            return None;
        }
        match operation {
            Operation::Removed => {
                self.refreshes.remove(&index);
                self.tracker.remove(index);
                self.emit_current()
            },
            Operation::New | Operation::Changed => {
                self.refreshes.insert(index);
                None
            },
            Operation::Other => None,
        }
    }

    /// Takes the answer to the request for notices.
    pub fn on_subscribed(&mut self, success: bool)
        ensures
            final(self).subscription_failed == (old(self).subscription_failed || !success),
            final(self).tracker == old(self).tracker,
            final(self).emitter == old(self).emitter,
            final(self).refreshes == old(self).refreshes,
    {
        if !success {
            self.subscription_failed = true;
        }
    }

    /// Whether the connection is over: the main loop failed, the server is not ready, or notices
    /// cannot be had.
    pub fn check(&self, iterated: bool, state: ServerState) -> (r: Option<ConnectionOutcome>)
        ensures
            r == (if !iterated || state != ServerState::Ready || self.subscription_failed {
                Some(ConnectionOutcome::Retry)
            } else {
                None
            }),
    {
        if !iterated || state != ServerState::Ready || self.subscription_failed {
            Some(ConnectionOutcome::Retry)
        } else {
            None
        }
    }

    /// The streams whose state is to be asked for; they are asked for once.
    pub fn take_refreshes(&mut self) -> (r: HashSet<u32>)
        ensures
            r@ == old(self).refreshes@,
            final(self).refreshes@ == Set::<u32>::empty(),
            final(self).tracker == old(self).tracker,
            final(self).emitter == old(self).emitter,
            final(self).subscription_failed == old(self).subscription_failed,
    {
        let mut taken: HashSet<u32> = HashSet::new();
        std::mem::swap(&mut taken, &mut self.refreshes);
        taken
    }

    /// Takes what waiting for a command brought; `pending` are the commands behind it, of which
    /// only the latest counts.
    pub fn on_poll(&mut self, poll: CommandPoll, pending: &Vec<VolumeCommand>) -> (r: Serving)
        ensures
            old(self).tracker@.wf() ==> final(self).tracker@.wf(),
            final(self).emitter == old(self).emitter,
            final(self).refreshes == old(self).refreshes,
            final(self).subscription_failed == old(self).subscription_failed,
            match poll {
                CommandPoll::Command(command) => {
                    let desired = DesiredVolume::of_command(last_command(pending@, command));
                    let after = final(self).tracker@;
                    &&& after == old(self).tracker@.with_desired(desired)
                    &&& r is Continue
                    &&& exists|keys: Seq<u32>| #[trigger]
                        tracker::ascending_keys(after.streams, keys) && tracker::requests_for(
                            after.streams,
                            keys,
                            desired,
                            r->Continue_0@,
                        )
                },
                CommandPoll::Timeout => {
                    &&& r is Continue
                    &&& r->Continue_0@.len() == 0
                    &&& final(self).tracker == old(self).tracker
                },
                CommandPoll::Disconnected => {
                    &&& r == Serving::Ended(ConnectionOutcome::Shutdown)
                    &&& final(self).tracker == old(self).tracker
                },
            },
    {
        match poll {
            CommandPoll::Command(command) => {
                let command: VolumeCommand = drain_to_latest(pending, command);
                let desired: DesiredVolume = DesiredVolume::from_command(command);
                self.tracker.set_desired(desired);
                Serving::Continue(self.tracker.plan(desired))
            },
            CommandPoll::Timeout => Serving::Continue(Vec::new()),
            CommandPoll::Disconnected => Serving::Ended(ConnectionOutcome::Shutdown),
        }
    }
}

} // verus!
