//! The volume of the application's own output.
use vstd::prelude::*;

verus! {

pub const MAX_PERCENT: u8 = 100;

/// The percentage that a request for a volume comes to.
pub open spec fn held_to_percent(percent: u8) -> u8 {
    if percent < MAX_PERCENT {
        percent
    } else {
        MAX_PERCENT
    }
}

/// Volume of the playback stream, in percent.
///
/// There is one volume, which its holders share: the window sets it and the playback stream reads
/// it. It cannot be copied, so no holder is left with a volume of its own.
#[derive(Debug, PartialEq, Eq, Structural)]
pub struct PlaybackVolume {
    pub level: u8,
}

impl PlaybackVolume {
    pub fn percent(&self) -> (r: u8)
        ensures
            r == held_to_percent(self.level),
    {
        if self.level < MAX_PERCENT {
            self.level
        } else {
            MAX_PERCENT
        }
    }

    pub fn set_percent(&mut self, percent: u8)
        ensures
            final(self).level == held_to_percent(percent),
    {
        self.level = if percent < MAX_PERCENT {
            percent
        } else {
            MAX_PERCENT
        };
    }
}

impl Default for PlaybackVolume {
    fn default() -> (r: PlaybackVolume)
        ensures
            r.level == MAX_PERCENT,
    {
        PlaybackVolume { level: MAX_PERCENT }
    }
}

/// A volume that was set is the volume that is read, up to the full one.
pub proof fn law_set_volume_is_read(percent: u8)
    ensures
        held_to_percent(held_to_percent(percent)) == held_to_percent(percent),
        percent <= MAX_PERCENT ==> held_to_percent(percent) == percent,
        held_to_percent(percent) <= MAX_PERCENT,
{
}

/// A volume above the full one is the full one, which is a hundred percent.
pub proof fn law_full_volume_is_a_hundred_percent(percent: u8)
    ensures
        percent > 100 ==> held_to_percent(percent) == 100,
        percent <= 100 ==> held_to_percent(percent) == percent,
{
}

} // verus!
