//! Volume levels: commands, reported states and the sound server's own scale.
use vstd::prelude::*;

use crate::listen::volume;
use crate::listen::volume::MAX_PERCENT;

verus! {

/// The sound server's raw level for one hundred percent.
pub const RAW_NORMAL: u32 = 0x1_0000;

/// The sound server's raw level for silence.
pub const RAW_MUTED: u32 = 0;

/// The highest raw level that the sound server takes.
pub const RAW_MAX: u32 = 0x7fff_ffff;

/// A user-initiated change to the application's desktop volume.
#[derive(Debug, Clone, Copy, PartialEq, Eq, Structural)]
pub enum VolumeCommand {
    /// Set every matching stream to a percentage in `0..=100` and unmute it.
    ///
    /// Values above 100 are clamped.
    SetPercent(u8),
}

/// The level that every stream of this application should have. Volume and mute are independent:
/// muting keeps the level that is restored when the stream is unmuted.
#[derive(Debug, Clone, Copy, PartialEq, Eq, Structural)]
pub struct DesiredVolume {
    pub raw_percent: u32,
    pub muted: bool,
}

/// Current desktop volume state for this application instance.
#[derive(Debug, Clone, Copy, PartialEq, Eq, Structural)]
pub enum VolumeEvent {
    /// The connection to the sound server is lost for now; what was known of the gain stays.
    Disconnected,
    /// The sound server is connected, but no stream of this instance can be controlled.
    Unavailable,
    /// A matching stream is available. `raw_percent` may be above 100.
    Available { raw_percent: u32, muted: bool },
}

/// Where the volume that is asked for takes effect.
#[derive(Debug, Clone, Copy, PartialEq, Eq, Structural)]
pub enum GainMode {
    /// In the playback itself, for want of a stream that the sound server controls.
    Playback,
    /// In the sound server.
    Server,
}

/// One request to the sound server.
#[derive(Debug, Clone, Copy, PartialEq, Eq, Structural)]
pub enum PlannedAction {
    SetVolume { index: u32, channels: u8, raw_volume: u32 },
    SetMute { index: u32, muted: bool },
}

impl DesiredVolume {
    /// What a command asks for: at most 100 percent, and never muted.
    pub open spec fn of_command(command: VolumeCommand) -> DesiredVolume {
        match command {
            VolumeCommand::SetPercent(percent) => DesiredVolume {
                raw_percent: if percent <= 100 {
                    percent as u32
                } else {
                    100
                },
                muted: false,
            },
        }
    }

    pub fn from_command(command: VolumeCommand) -> (r: DesiredVolume)
        ensures
            r == DesiredVolume::of_command(command),
    {
        let VolumeCommand::SetPercent(percent) = command;
        DesiredVolume {
            raw_percent: if percent <= 100 {
                percent as u32
            } else {
                100
            },
            muted: false,
        }
    }

    pub fn from_event(raw_percent: u32, muted: bool) -> (r: DesiredVolume)
        ensures
            r == (DesiredVolume { raw_percent, muted }),
    {
        DesiredVolume { raw_percent, muted }
    }
}

impl GainMode {
    /// The mode after a reported state. A lost connection keeps the mode: the stream may still be
    /// played while the sound server's control restarts.
    pub fn after(self, event: VolumeEvent) -> (r: GainMode)
        ensures
            r == (match event {
                VolumeEvent::Disconnected => self,
                VolumeEvent::Unavailable => GainMode::Playback,
                VolumeEvent::Available { .. } => GainMode::Server,
            }),
    {
        match event {
            VolumeEvent::Disconnected => self,
            VolumeEvent::Unavailable => GainMode::Playback,
            VolumeEvent::Available { .. } => GainMode::Server,
        }
    }

    /// The volume of the playback itself while `percent` is asked for: the full one where the
    /// sound server sets the level, so that it is not lowered twice.
    pub fn playback_percent(self, percent: u8) -> (r: u8)
        ensures
            r == (match self {
                GainMode::Playback => volume::held_to_percent(percent),
                GainMode::Server => MAX_PERCENT,
            }),
    {
        match self {
            GainMode::Playback => if percent < MAX_PERCENT {
                percent
            } else {
                MAX_PERCENT
            },
            GainMode::Server => MAX_PERCENT,
        }
    }
}

/// The percentage, rounded to the nearest whole one, that a raw level stands for.
pub open spec fn percent_of_raw(raw_volume: u32) -> int {
    (raw_volume * 100 + RAW_NORMAL / 2) / RAW_NORMAL as int
}

/// The raw level, rounded to the nearest one and at most the highest, for a percentage.
pub open spec fn raw_of_percent(percent: u32) -> int {
    let raw = (RAW_NORMAL * percent + 50) / 100;
    if raw <= RAW_MAX {
        raw
    } else {
        RAW_MAX as int
    }
}

pub fn raw_to_percent(raw_volume: u32) -> (r: u32)
    ensures
        r == percent_of_raw(raw_volume),
{
    let normal: u64 = RAW_NORMAL as u64;
    ((raw_volume as u64 * 100 + normal / 2) / normal) as u32
}

pub fn percent_to_raw(percent: u32) -> (r: u32)
    ensures
        r == raw_of_percent(percent),
{
    let wide: u64 = percent as u64;
    let raw: u64 = (0x1_0000 * wide + 50) / 100;
    if raw <= RAW_MAX as u64 {
        raw as u32
    } else {
        RAW_MAX
    }
}

/// A percentage survives the way to the sound server and back, amplified levels included, up to
/// the highest level that the server takes.
pub proof fn law_percent_round_trip(percent: u32)
    requires
        (RAW_NORMAL * percent + 50) / 100 <= RAW_MAX,
    ensures
        percent_of_raw(raw_of_percent(percent) as u32) == percent,
{
}

/// The raw level for a percentage is the nearest one on a scale on which 65536 stands for a hundred
/// percent, unless that is above the highest level.
pub proof fn law_raw_level_is_the_nearest(percent: u32)
    ensures
        ({
            let raw = raw_of_percent(percent);
            &&& 0 <= raw <= 0x7fff_ffff
            &&& -50 <= raw * 100 - percent * 65536 <= 50 || (raw == 0x7fff_ffff && raw * 100
                <= percent * 65536)
        }),
{
}

/// The percentage for a raw level is the nearest one on the same scale.
pub proof fn law_percentage_is_the_nearest(raw_volume: u32)
    ensures
        -32768 <= percent_of_raw(raw_volume) * 65536 - raw_volume * 100 <= 32768,
        0 <= percent_of_raw(raw_volume) <= u32::MAX,
{
}

/// A command asks for its percentage up to a hundred, and never for silence by the flag.
pub proof fn law_command_asks_for_its_percentage(percent: u8)
    ensures
        percent <= 100 ==> DesiredVolume::of_command(VolumeCommand::SetPercent(percent)).raw_percent
            == percent,
        percent > 100 ==> DesiredVolume::of_command(VolumeCommand::SetPercent(percent)).raw_percent
            == 100,
        !DesiredVolume::of_command(VolumeCommand::SetPercent(percent)).muted,
{
}

/// Only a report of the very level and flag that are desired confirms them.
pub proof fn law_only_the_desired_state_confirms(
    desired: DesiredVolume,
    raw_percent: u32,
    muted: bool,
)
    ensures
        confirms(desired, raw_percent, muted) <==> desired == (DesiredVolume { raw_percent, muted }),
{
}

/// A state is told when it differs from the last one that was told, and only then.
pub proof fn law_only_changes_are_told(last: VolumeEvent, event: VolumeEvent)
    ensures
        event != last ==> news(last, event) == Some(event),
        news(last, last) is None,
{
}

/// A higher percentage never gives a lower raw level.
pub proof fn law_raw_is_monotonic(low: u32, high: u32)
    requires
        low <= high,
    ensures
        raw_of_percent(low) <= raw_of_percent(high),
{
}

/// Whether an observed state is the desired one.
pub open spec fn confirms(desired: DesiredVolume, raw_percent: u32, muted: bool) -> bool {
    muted == desired.muted && raw_percent == desired.raw_percent
}

pub fn observation_confirms(desired: DesiredVolume, raw_percent: u32, muted: bool) -> (r: bool)
    ensures
        r == confirms(desired, raw_percent, muted),
{
    muted == desired.muted && raw_percent == desired.raw_percent
}

/// The level request for one stream.
pub open spec fn volume_action(index: u32, channels: u8, desired: DesiredVolume) -> PlannedAction {
    PlannedAction::SetVolume {
        index,
        channels,
        raw_volume: raw_of_percent(desired.raw_percent) as u32,
    }
}

/// The mute request for one stream.
pub open spec fn mute_action(index: u32, desired: DesiredVolume) -> PlannedAction {
    PlannedAction::SetMute { index, muted: desired.muted }
}

/// The requests that bring one stream to the desired state: first its level, then its mute flag.
pub fn planned_actions(index: u32, channels: u8, desired: DesiredVolume) -> (r: [PlannedAction; 2])
    ensures
        r@ == seq![volume_action(index, channels, desired), mute_action(index, desired)],
{
    [
        PlannedAction::SetVolume {
            index,
            channels,
            raw_volume: percent_to_raw(desired.raw_percent),
        },
        PlannedAction::SetMute { index, muted: desired.muted },
    ]
}

/// The event to report after `last`, which is none if nothing has changed.
pub open spec fn news(last: VolumeEvent, event: VolumeEvent) -> Option<VolumeEvent> {
    if event == last {
        None
    } else {
        Some(event)
    }
}

/// Reports states, each only when it differs from the one reported before.
#[derive(Debug, Clone, Copy)]
pub struct EventEmitter {
    pub last_event: VolumeEvent,
}

impl EventEmitter {
    pub fn new(initial: VolumeEvent) -> (r: EventEmitter)
        ensures
            r.last_event == initial,
    {
        EventEmitter { last_event: initial }
    }

    /// The event to send, if it is news.
    pub fn emit(&mut self, event: VolumeEvent) -> (r: Option<VolumeEvent>)
        ensures
            final(self).last_event == event,
            r == news(old(self).last_event, event),
    {
        if event == self.last_event {
            return None;
        }
        self.last_event = event;
        Some(event)
    }
}

} // verus!
