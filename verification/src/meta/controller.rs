//! Starting, pausing and stopping the gateway for a station.
use vstd::prelude::*;

use crate::listen::controller::timeshift_root;
use crate::number;
use crate::station::Station;

verus! {

/// What a running gateway is told.
#[derive(Debug, Clone, Copy, PartialEq, Eq, Structural)]
pub enum Control {
    Stop,
    Pause,
    Resume,
}

/// What a change asks for: word to the gateway that runs, and a new one after that.
#[derive(Debug, Clone, Copy, PartialEq, Eq, Structural)]
pub struct MetaOrder {
    pub send: Option<Control>,
    pub spawn: Option<Station>,
}

/// The gateway for a station. It is run by the caller, as the methods say.
#[derive(Debug, Clone, Copy, PartialEq, Eq, Structural)]
pub struct Meta {
    pub station: Station,
    pub running: bool,
}

impl Meta {
    pub fn new(station: Station) -> (r: Meta)
        ensures
            r == (Meta { station, running: false }),
    {
        Meta { station, running: false }
    }

    /// Changes the station. A gateway that runs is stopped, and one of the new station started.
    pub fn set_station(&mut self, station: Station) -> (r: MetaOrder)
        ensures
            *final(self) == (Meta { station, ..*old(self) }),
            r == (if old(self).running {
                MetaOrder { send: Some(Control::Stop), spawn: Some(station) }
            } else {
                MetaOrder { send: None, spawn: None }
            }),
    {
        if self.running {
            let stopped = self.stop();
            self.station = station;
            let started = self.start();
            MetaOrder { send: stopped.send, spawn: started.spawn }
        } else {
            self.station = station;
            MetaOrder { send: None, spawn: None }
        }
    }

    /// Starts a gateway, or lets one that runs show tracks again.
    pub fn start(&mut self) -> (r: MetaOrder)
        ensures
            *final(self) == (Meta { running: true, ..*old(self) }),
            r == (if old(self).running {
                MetaOrder { send: Some(Control::Resume), spawn: None }
            } else {
                MetaOrder { send: None, spawn: Some(old(self).station) }
            }),
    {
        if self.running {
            MetaOrder { send: Some(Control::Resume), spawn: None }
        } else {
            self.running = true;
            MetaOrder { send: None, spawn: Some(self.station) }
        }
    }

    /// Lets a gateway that runs show no tracks.
    pub fn pause(&self) -> (r: MetaOrder)
        ensures
            r == (MetaOrder {
                send: if self.running {
                    Some(Control::Pause)
                } else {
                    None
                },
                spawn: None,
            }),
    {
        let send = if self.running {
            Some(Control::Pause)
        } else {
            None
        };
        MetaOrder { send, spawn: None }
    }

    /// Stops the gateway. Also what is left to do when it is given up.
    pub fn stop(&mut self) -> (r: MetaOrder)
        ensures
            *final(self) == (Meta { running: false, ..*old(self) }),
            r == (MetaOrder {
                send: if old(self).running {
                    Some(Control::Stop)
                } else {
                    None
                },
                spawn: None,
            }),
    {
        let send = if self.running {
            Some(Control::Stop)
        } else {
            None
        };
        self.running = false;
        MetaOrder { send, spawn: None }
    }
}

/// The path below the cache directory of the file that keeps the tracks of a session.
pub fn timeline_path(namespace: &str, station: Station, session_id: u128) -> (r: Vec<String>)
    ensures
        r@.len() == 5,
        r@[0]@ == namespace@,
        r@[1]@ == "timeshift"@,
        r@[2]@ == station.short_name(),
        r@[3]@ == "session-"@ + number::decimal(session_id as nat),
        r@[4]@ == "timeline.json"@,
{
    let mut path = timeshift_root(namespace, station, session_id);
    path.push("timeline.json".to_owned());
    path
}

} // verus!
