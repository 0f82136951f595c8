//! Telling Discord what is playing: when to connect, and when to try again.
use vstd::prelude::*;

verus! {

pub const DISCORD_CLIENT_ID: &'static str = "1469290259853349040";

/// Where a request stands.
#[derive(Debug, Clone, Copy, PartialEq, Eq, Structural)]
pub enum LinkPhase {
    /// No request is being made.
    Idle,
    /// The connection that a request needs is being made.
    Connecting,
    /// The request is made.
    FirstTry,
    /// The request failed, and a new connection is being made.
    Reconnecting,
    /// The request is made again.
    SecondTry,
}

/// What to do next for a request. What came of it is told with `on_outcome`.
#[derive(Debug, Clone, Copy, PartialEq, Eq, Structural)]
pub enum LinkAction {
    Connect,
    /// Close the connection and connect again.
    Reconnect,
    Perform,
    /// The request is done.
    Done,
    /// The request failed with the last error.
    Fail,
}

/// The connection to Discord, which the caller holds.
#[derive(Debug, Clone, Copy, PartialEq, Eq, Structural)]
pub struct Discord {
    pub enabled: bool,
    pub connected: bool,
    pub phase: LinkPhase,
}

impl Discord {
    /// How many steps a request can still take.
    pub open spec fn steps_left(self) -> nat {
        match self.phase {
            LinkPhase::Idle => 0,
            LinkPhase::SecondTry => 1,
            LinkPhase::Reconnecting => 2,
            LinkPhase::FirstTry => 3,
            LinkPhase::Connecting => 4,
        }
    }

    pub fn new(enabled: bool) -> (r: Discord)
        ensures
            r == (Discord { enabled, connected: false, phase: LinkPhase::Idle }),
    {
        Discord { enabled, connected: false, phase: LinkPhase::Idle }
    }

    pub fn is_enabled(&self) -> (r: bool)
        ensures
            r == self.enabled,
    {
        self.enabled
    }

    /// Whether a connection is to be made at the start.
    pub fn connects_at_start(&self) -> (r: bool)
        ensures
            r == (self.enabled && !self.connected),
    {
        self.enabled && !self.connected
    }

    /// Takes whether the connection at the start could be made. It is not missed until a request
    /// needs it.
    pub fn on_start(&mut self, connected: bool)
        ensures
            *final(self) == (Discord { connected, ..*old(self) }),
    {
        self.connected = connected;
    }

    /// Begins a request. Where Discord is not to be told anything, it is done at once.
    pub fn begin(&mut self) -> (r: LinkAction)
        ensures
            final(self).enabled == old(self).enabled,
            final(self).connected == old(self).connected,
            !old(self).enabled ==> r == LinkAction::Done && final(self).phase == LinkPhase::Idle,
            old(self).enabled && old(self).connected ==> r == LinkAction::Perform
                && final(self).phase == LinkPhase::FirstTry,
            old(self).enabled && !old(self).connected ==> r == LinkAction::Connect
                && final(self).phase == LinkPhase::Connecting,
    {
        if !self.enabled {
            self.phase = LinkPhase::Idle;
            LinkAction::Done
        } else if self.connected {
            self.phase = LinkPhase::FirstTry;
            LinkAction::Perform
        } else {
            self.phase = LinkPhase::Connecting;
            LinkAction::Connect
        }
    }

    /// What follows a step of a request that went well or not.
    pub open spec fn following(self, ok: bool) -> (Discord, LinkAction) {
        match (self.phase, ok) {
            (LinkPhase::Connecting, true) => (
                Discord { connected: true, phase: LinkPhase::FirstTry, ..self },
                LinkAction::Perform,
            ),
            (LinkPhase::Reconnecting, true) => (
                Discord { connected: true, phase: LinkPhase::SecondTry, ..self },
                LinkAction::Perform,
            ),
            (LinkPhase::FirstTry, false) => (
                Discord { connected: false, phase: LinkPhase::Reconnecting, ..self },
                LinkAction::Reconnect,
            ),
            (_, true) => (Discord { phase: LinkPhase::Idle, ..self }, LinkAction::Done),
            (_, false) => (Discord { phase: LinkPhase::Idle, ..self }, LinkAction::Fail),
        }
    }

    /// Takes whether the step that was asked for went well. A request that fails is made once more,
    /// over a new connection.
    pub fn on_outcome(&mut self, ok: bool) -> (r: LinkAction)
        ensures
            (*final(self), r) == old(self).following(ok),
    {
        match self.phase {
            LinkPhase::Connecting => if ok {
                self.connected = true;
                self.phase = LinkPhase::FirstTry;
                LinkAction::Perform
            } else {
                self.phase = LinkPhase::Idle;
                LinkAction::Fail
            },
            LinkPhase::Reconnecting => if ok {
                self.connected = true;
                self.phase = LinkPhase::SecondTry;
                LinkAction::Perform
            } else {
                self.phase = LinkPhase::Idle;
                LinkAction::Fail
            },
            LinkPhase::FirstTry => if ok {
                self.phase = LinkPhase::Idle;
                LinkAction::Done
            } else {
                self.connected = false;
                self.phase = LinkPhase::Reconnecting;
                LinkAction::Reconnect
            },
            _ => {
                self.phase = LinkPhase::Idle;
                if ok {
                    LinkAction::Done
                } else {
                    LinkAction::Fail
                }
            },
        }
    }

    /// Whether what was told last is to be cleared and the connection closed, when Discord is not
    /// needed any more.
    pub fn shut_down(&mut self) -> (r: bool)
        ensures
            r == old(self).connected,
            *final(self) == (Discord { connected: false, ..*old(self) }),
    {
        let was_connected = self.connected;
        self.connected = false;
        was_connected
    }
}

/// Every step of a request brings it nearer to its end, so that it takes at most four: two
/// connections, and what was asked for twice.
pub proof fn law_requests_end(link: Discord, ok: bool)
    requires
        link.phase != LinkPhase::Idle,
    ensures
        ({
            let (next, action) = link.following(ok);
            &&& next.steps_left() < link.steps_left()
            &&& next.phase == LinkPhase::Idle <==> (action == LinkAction::Done || action
                == LinkAction::Fail)
            &&& next.enabled == link.enabled
        }),
        link.steps_left() <= 4,
{
}

/// A request that goes well the first time is done, over the connection that it has.
pub proof fn law_request_over_a_connection_is_done(link: Discord)
    requires
        link.phase == LinkPhase::FirstTry,
    ensures
        link.following(true).1 == LinkAction::Done,
        link.following(true).0.connected == link.connected,
        link.following(true).0.phase == LinkPhase::Idle,
{
}

/// A request is made once a connection is there; without one it fails.
pub proof fn law_request_needs_a_connection(link: Discord)
    requires
        link.phase == LinkPhase::Connecting,
    ensures
        link.following(true).1 == LinkAction::Perform,
        link.following(true).0.connected,
        link.following(true).0.phase == LinkPhase::FirstTry,
        link.following(false).1 == LinkAction::Fail,
        link.following(false).0.connected == link.connected,
{
}

/// A request that fails is made just once more, over a new connection, and what comes of that
/// decides; without the new connection it has failed.
pub proof fn law_failed_request_is_made_once_more(link: Discord, ok: bool)
    requires
        link.phase == LinkPhase::FirstTry,
    ensures
        ({
            let (reconnecting, first) = link.following(false);
            let (again, second) = reconnecting.following(true);
            let (end, third) = again.following(ok);
            let (given_up, refused) = reconnecting.following(false);
            &&& first == LinkAction::Reconnect
            &&& !reconnecting.connected
            &&& second == LinkAction::Perform
            &&& again.connected
            &&& third == (if ok {
                LinkAction::Done
            } else {
                LinkAction::Fail
            })
            &&& end.phase == LinkPhase::Idle
            &&& end.connected
            &&& refused == LinkAction::Fail
            &&& !given_up.connected
        }),
{
}

} // verus!
