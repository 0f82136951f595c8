//! Where the stream comes from: which address is tried, which track is played, and how the player
//! introduces itself.
use vstd::prelude::*;

verus! {

/// Which of a station's two addresses is tried next.
#[derive(Debug, Clone, Copy, PartialEq, Eq, Structural)]
pub struct SourceChoice {
    pub has_fallback: bool,
    pub use_fallback: bool,
}

impl SourceChoice {
    /// The choice after an attempt that came to nothing: the other address, if there is one.
    pub open spec fn after_failure(self) -> SourceChoice {
        if self.has_fallback {
            SourceChoice { use_fallback: !self.use_fallback, ..self }
        } else {
            self
        }
    }

    /// The choice after a number of failed attempts.
    pub open spec fn after_failures(self, n: nat) -> SourceChoice
        decreases n,
    {
        if n == 0 {
            self
        } else {
            self.after_failures((n - 1) as nat).after_failure()
        }
    }

    /// The main address first.
    pub fn new(fallback_url: &str) -> (r: SourceChoice)
        ensures
            !r.use_fallback,
            r.has_fallback == (fallback_url@.len() > 0),
    {
        SourceChoice { has_fallback: !fallback_url.is_empty(), use_fallback: false }
    }

    pub fn switch(&mut self)
        ensures
            *final(self) == old(self).after_failure(),
    {
        if self.has_fallback {
            self.use_fallback = !self.use_fallback;
        }
    }

    /// The address to try.
    pub fn url<'a>(&self, primary: &'a str, fallback: &'a str) -> (r: &'a str)
        ensures
            r@ == (if self.use_fallback {
                fallback@
            } else {
                primary@
            }),
    {
        if self.use_fallback {
            fallback
        } else {
            primary
        }
    }
}

/// With a fallback the addresses take turns; without one the main address is tried every time.
pub proof fn law_addresses_take_turns(choice: SourceChoice, n: nat)
    ensures
        choice.after_failures(n).has_fallback == choice.has_fallback,
        choice.has_fallback ==> choice.after_failures(n).use_fallback == (choice.use_fallback != (n
            % 2 == 1)),
        !choice.has_fallback ==> choice.after_failures(n) == choice,
    decreases n,
{
    if n > 0 {
        law_addresses_take_turns(choice, (n - 1) as nat);
    }
}

/// What a track of a stream holds.
#[derive(Debug, Clone, Copy, PartialEq, Eq, Structural)]
pub enum TrackCodec {
    Unknown,
    NotAudio,
    NullAudio,
    Audio,
}

#[derive(Debug, Clone, Copy, PartialEq, Eq, Structural)]
pub struct StreamTrack {
    pub id: u32,
    pub codec: TrackCodec,
}

/// The first track from `from` on that can be played.
pub open spec fn playable_from(tracks: Seq<StreamTrack>, from: int) -> Option<int>
    decreases tracks.len() - from,
{
    if from >= tracks.len() {
        None
    } else if tracks[from].codec == TrackCodec::Audio {
        Some(from)
    } else {
        playable_from(tracks, from + 1)
    }
}

/// The index of the track to play: the first with audio in it.
pub fn supported_track(tracks: &[StreamTrack]) -> (r: Option<usize>)
    ensures
        match playable_from(tracks@, 0) {
            Some(i) => r is Some && r->0 == i && 0 <= i < tracks@.len(),
            None => r is None,
        },
{
    let mut i: usize = 0;
    while i < tracks.len()
        invariant
            i <= tracks@.len(),
            playable_from(tracks@, i as int) == playable_from(tracks@, 0),
        decreases tracks@.len() - i,
    {
        if tracks[i].codec == TrackCodec::Audio {
            return Some(i);
        }
        i += 1;
    }
    None
}

/// The track that is played has audio in it, and none before it has; there is none to play just if
/// no track has audio.
pub proof fn law_first_track_with_audio_is_played(tracks: Seq<StreamTrack>)
    ensures
        match playable_from(tracks, 0) {
            Some(i) => {
                &&& 0 <= i < tracks.len()
                &&& tracks[i].codec is Audio
                &&& forall|j: int| 0 <= j < i ==> !((#[trigger] tracks[j]).codec is Audio)
            },
            None => forall|j: int|
                0 <= j < tracks.len() ==> !((#[trigger] tracks[j]).codec is Audio),
        },
{
    lemma_playable_from(tracks, 0);
}

proof fn lemma_playable_from(tracks: Seq<StreamTrack>, from: int)
    requires
        0 <= from,
    ensures
        match playable_from(tracks, from) {
            Some(i) => {
                &&& from <= i < tracks.len()
                &&& tracks[i].codec is Audio
                &&& forall|j: int| from <= j < i ==> !((#[trigger] tracks[j]).codec is Audio)
            },
            None => forall|j: int|
                from <= j < tracks.len() ==> !((#[trigger] tracks[j]).codec is Audio),
        },
    decreases tracks.len() - from,
{
    if from < tracks.len() && !(tracks[from].codec is Audio) {
        lemma_playable_from(tracks, from + 1);
    }
}

/// The systems that the player tells the server apart.
#[derive(Debug, Clone, Copy, PartialEq, Eq, Structural)]
pub enum Platform {
    Linux,
    Windows,
    Other,
}

impl Platform {
    pub open spec fn text(self) -> Seq<char> {
        match self {
            Platform::Linux => "linux"@,
            Platform::Windows => "windows"@,
            Platform::Other => "other"@,
        }
    }

    pub fn name(self) -> (r: &'static str)
        ensures
            r@ == self.text(),
    {
        match self {
            Platform::Linux => "linux",
            Platform::Windows => "windows",
            Platform::Other => "other",
        }
    }
}

/// How the player introduces itself: its name, version and system.
pub fn build_useragent(name: &str, version: &str, platform: Platform) -> (r: String)
    ensures
        r@ == name@ + "-v"@ + version@ + "-"@ + platform.text(),
{
    let mut agent = name.to_owned();
    agent.push_str("-v");
    agent.push_str(version);
    agent.push_str("-");
    agent.push_str(platform.name());
    agent
}

/// Whether audio can be handed to the output: it has channels and a sample rate.
pub fn is_playable(channels: u16, sample_rate: u32) -> (r: bool)
    ensures
        r == (channels > 0 && sample_rate > 0),
{
    channels > 0 && sample_rate > 0
}

} // verus!
