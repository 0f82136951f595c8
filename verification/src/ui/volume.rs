//! The volume button.
use vstd::prelude::*;

use crate::listen::volume;
use crate::listen::volume::MAX_PERCENT;

verus! {

/// Which changes of the button are requests of the user.
#[derive(Debug, Clone, Copy, PartialEq, Eq, Structural)]
pub struct VolumeUi {
    pub suppress_change: bool,
}

/// A percentage held to what the button can show.
fn held(percent: u8) -> (r: u8)
    ensures
        r == volume::held_to_percent(percent),
{
    if percent < MAX_PERCENT {
        percent
    } else {
        MAX_PERCENT
    }
}

impl VolumeUi {
    /// The button at the start, and what it shows.
    pub fn new(initial_percent: u8) -> (r: (VolumeUi, u8))
        ensures
            !r.0.suppress_change,
            r.1 == volume::held_to_percent(initial_percent),
    {
        (VolumeUi { suppress_change: false }, held(initial_percent))
    }

    /// The volume that a change of the button asks for. Changes that the player itself makes ask
    /// for nothing.
    pub fn on_value_changed(&self, percent: u8) -> (r: Option<u8>)
        ensures
            r == (if self.suppress_change {
                None
            } else {
                Some(percent)
            }),
    {
        if self.suppress_change {
            None
        } else {
            Some(percent)
        }
    }

    /// Begins to show a volume that was asked for elsewhere: what the button is to be set to, and
    /// then is asked for. `finish_silent` ends this once the button is set.
    pub fn request_percent(&mut self, percent: u8) -> (r: u8)
        ensures
            r == volume::held_to_percent(percent),
            final(self).suppress_change,
    {
        self.set_percent_silent(percent)
    }

    /// Begins to show a volume that was observed: what the button is to be set to. `finish_silent`
    /// ends this once the button is set.
    pub fn set_percent_silent(&mut self, percent: u8) -> (r: u8)
        ensures
            r == volume::held_to_percent(percent),
            final(self).suppress_change,
    {
        self.suppress_change = true;
        held(percent)
    }

    pub fn finish_silent(&mut self)
        ensures
            !final(self).suppress_change,
    {
        self.suppress_change = false;
    }
}

} // verus!
