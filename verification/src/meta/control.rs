//! Commands to the loop that keeps the gateway connected.
use vstd::prelude::*;

use crate::meta::controller::Control;

verus! {

/// How long the loop waits after a command.
pub const CONTROL_WAIT_MS: u64 = 1_000;

/// How long the loop waits before it connects again.
pub const RETRY_DELAY_MS: u64 = 5_000;

/// What was found when a command was looked for.
#[derive(Debug, Clone, Copy, PartialEq, Eq, Structural)]
pub enum ControlPoll {
    Command(Control),
    Empty,
    Disconnected,
}

/// What the loop does next.
#[derive(Debug, Clone, Copy, PartialEq, Eq, Structural)]
pub enum OuterLoopAction {
    Continue,
    Stop,
    SleepMs(u64),
}

/// Whether tracks are not shown after what was found.
pub open spec fn paused_after(poll: ControlPoll, paused: bool) -> bool {
    match poll {
        ControlPoll::Command(Control::Pause) => true,
        ControlPoll::Command(Control::Resume) => false,
        _ => paused,
    }
}

/// Takes what was found when a command was looked for. Without one the loop waits as given.
pub fn handle_outer_control(poll: ControlPoll, paused: &mut bool, empty_sleep_ms: u64) -> (r:
    OuterLoopAction)
    ensures
        *final(paused) == paused_after(poll, *old(paused)),
        r == (match poll {
            ControlPoll::Command(Control::Stop) => OuterLoopAction::Stop,
            ControlPoll::Disconnected => OuterLoopAction::Stop,
            ControlPoll::Command(_) => OuterLoopAction::SleepMs(CONTROL_WAIT_MS),
            ControlPoll::Empty => if empty_sleep_ms == 0 {
                OuterLoopAction::Continue
            } else {
                OuterLoopAction::SleepMs(empty_sleep_ms)
            },
        }),
{
    match poll {
        ControlPoll::Command(command) => match command {
            Control::Stop => OuterLoopAction::Stop,
            Control::Pause => {
                *paused = true;
                OuterLoopAction::SleepMs(CONTROL_WAIT_MS)
            },
            Control::Resume => {
                *paused = false;
                OuterLoopAction::SleepMs(CONTROL_WAIT_MS)
            },
        },
        ControlPoll::Disconnected => OuterLoopAction::Stop,
        ControlPoll::Empty => if empty_sleep_ms == 0 {
            OuterLoopAction::Continue
        } else {
            OuterLoopAction::SleepMs(empty_sleep_ms)
        },
    }
}

/// Whether a connection is not made after all, given what was found when a command was looked for
/// just before it. Other commands found there change nothing.
pub fn ends_before_connect(poll: ControlPoll) -> (r: bool)
    ensures
        r == (poll == ControlPoll::Command(Control::Stop) || poll == ControlPoll::Disconnected),
{
    match poll {
        ControlPoll::Command(Control::Stop) => true,
        ControlPoll::Disconnected => true,
        _ => false,
    }
}

/// The loop around connections: whether tracks are shown.
#[derive(Debug, Clone, Copy, PartialEq, Eq, Structural)]
pub struct MetaLoop {
    pub paused: bool,
}

impl MetaLoop {
    pub fn new() -> (r: MetaLoop)
        ensures
            !r.paused,
    {
        MetaLoop { paused: false }
    }

    /// Before a connection: goes on at once unless a command says otherwise.
    pub fn before_session(&mut self, poll: ControlPoll) -> (r: OuterLoopAction)
        ensures
            final(self).paused == paused_after(poll, old(self).paused),
            r == (match poll {
                ControlPoll::Command(Control::Stop) => OuterLoopAction::Stop,
                ControlPoll::Disconnected => OuterLoopAction::Stop,
                ControlPoll::Command(_) => OuterLoopAction::SleepMs(CONTROL_WAIT_MS),
                ControlPoll::Empty => OuterLoopAction::Continue,
            }),
    {
        handle_outer_control(poll, &mut self.paused, 0)
    }

    /// After a connection, however it ended: waits before the next unless a command says otherwise.
    pub fn after_session(&mut self, poll: ControlPoll) -> (r: OuterLoopAction)
        ensures
            final(self).paused == paused_after(poll, old(self).paused),
            r == (match poll {
                ControlPoll::Command(Control::Stop) => OuterLoopAction::Stop,
                ControlPoll::Disconnected => OuterLoopAction::Stop,
                ControlPoll::Command(_) => OuterLoopAction::SleepMs(CONTROL_WAIT_MS),
                ControlPoll::Empty => OuterLoopAction::SleepMs(RETRY_DELAY_MS),
            }),
    {
        handle_outer_control(poll, &mut self.paused, RETRY_DELAY_MS)
    }
}

/// Pausing and going on take turns; whatever else is found leaves it as it was.
pub proof fn law_only_pause_and_resume_change_what_is_shown(paused: bool)
    ensures
        paused_after(ControlPoll::Command(Control::Pause), paused),
        !paused_after(ControlPoll::Command(Control::Resume), paused),
        paused_after(ControlPoll::Command(Control::Stop), paused) == paused,
        paused_after(ControlPoll::Empty, paused) == paused,
        paused_after(ControlPoll::Disconnected, paused) == paused,
{
}

} // verus!
