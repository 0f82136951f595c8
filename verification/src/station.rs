//! The two stations.
use vstd::prelude::*;

verus! {

#[derive(Debug, Clone, Copy, PartialEq, Eq, Structural)]
pub enum Station {
    Jpop,
    Kpop,
}

impl Station {
    /// The name that the station has in settings, actions and paths.
    pub open spec fn short_name(self) -> Seq<char> {
        match self {
            Station::Jpop => "jpop"@,
            Station::Kpop => "kpop"@,
        }
    }

    /// The name that the station is shown with.
    pub open spec fn shown_name(self) -> Seq<char> {
        match self {
            Station::Jpop => "J-POP"@,
            Station::Kpop => "K-POP"@,
        }
    }

    /// The other one of the two.
    pub open spec fn other(self) -> Station {
        match self {
            Station::Jpop => Station::Kpop,
            Station::Kpop => Station::Jpop,
        }
    }

    pub fn name(self) -> (r: &'static str)
        ensures
            r@ == self.short_name(),
    {
        match self {
            Station::Jpop => "jpop",
            Station::Kpop => "kpop",
        }
    }

    pub fn display_name(self) -> (r: &'static str)
        ensures
            r@ == self.shown_name(),
    {
        match self {
            Station::Jpop => "J-POP",
            Station::Kpop => "K-POP",
        }
    }
}

/// The station to change to from the given one.
pub fn other_station(station: Station) -> (r: Station)
    ensures
        r == station.other(),
{
    match station {
        Station::Jpop => Station::Kpop,
        Station::Kpop => Station::Jpop,
    }
}

/// Changing to the other station twice leads back, and never stays.
pub proof fn law_other_station_is_an_involution(station: Station)
    ensures
        station.other() != station,
        station.other().other() == station,
{
}

/// The names tell the stations apart.
pub proof fn law_station_names_differ(a: Station, b: Station)
    requires
        a != b,
    ensures
        a.short_name() != b.short_name(),
        a.shown_name() != b.shown_name(),
{
    reveal_strlit("jpop");
    reveal_strlit("kpop");
    reveal_strlit("J-POP");
    reveal_strlit("K-POP");
    assert("jpop"@[0] == 'j');
    assert("kpop"@[0] == 'k');
    assert("J-POP"@[0] == 'J');
    assert("K-POP"@[0] == 'K');
}

/// The name that a station is shown with is its name in capitals, with a dash behind the first
/// letter.
pub proof fn law_shown_name_is_the_name_in_capitals(station: Station)
    ensures
        ({
            let name = station.short_name();
            let shown = station.shown_name();
            crate::text::lower(shown) == seq![name[0], '-'] + name.drop_first()
        }),
        station.short_name()[0] == (if station == Station::Jpop {
            'j'
        } else {
            'k'
        }),
{
    reveal_strlit("jpop");
    reveal_strlit("kpop");
    reveal_strlit("J-POP");
    reveal_strlit("K-POP");
    let name = station.short_name();
    let shown = station.shown_name();
    assert('J' as u32 + 32 == 'j' as u32);
    assert('K' as u32 + 32 == 'k' as u32);
    assert('P' as u32 + 32 == 'p' as u32);
    assert('O' as u32 + 32 == 'o' as u32);
    assert(crate::text::lower(shown) =~= seq![name[0], '-'] + name.drop_first());
}

} // verus!
