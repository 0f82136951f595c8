//! What the user has chosen about startup and behaviour.
use vstd::prelude::*;

use crate::station::Station;

verus! {

#[derive(Debug, Clone, Copy, PartialEq, Eq, Structural)]
pub struct UiOptions {
    pub station: Station,
    pub autoplay: bool,
    pub pause_resume_enabled: bool,
    pub discord_enabled: bool,
}

impl UiOptions {
    /// The options of a user who has chosen nothing.
    pub open spec fn defaults() -> UiOptions {
        UiOptions {
            station: Station::Jpop,
            autoplay: false,
            pause_resume_enabled: false,
            discord_enabled: true,
        }
    }

    pub fn pause_resume_enabled(&self) -> (r: bool)
        ensures
            r == self.pause_resume_enabled,
    {
        self.pause_resume_enabled
    }

    pub fn set_pause_resume_enabled(&mut self, enabled: bool)
        ensures
            *final(self) == (UiOptions { pause_resume_enabled: enabled, ..*old(self) }),
    {
        self.pause_resume_enabled = enabled;
    }
}

impl Default for UiOptions {
    fn default() -> (r: UiOptions)
        ensures
            r == UiOptions::defaults(),
    {
        UiOptions {
            station: Station::Jpop,
            autoplay: false,
            pause_resume_enabled: false,
            discord_enabled: true,
        }
    }
}

} // verus!
