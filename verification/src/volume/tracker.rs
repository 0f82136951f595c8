//! The playback streams of this application and the volume that each of them should have.
use std::collections::BTreeMap;
use vstd::prelude::*;

use crate::volume::level;
use crate::volume::level::{
    observation_confirms, planned_actions, DesiredVolume, PlannedAction, VolumeEvent,
};

verus! {

/// What is known of one playback stream, and the state it has been asked for but not reported yet.
#[derive(Debug, Clone, Copy, PartialEq, Eq, Structural)]
pub struct TrackedStream {
    pub raw_percent: u32,
    pub muted: bool,
    pub channels: u8,
    pub pending: Option<DesiredVolume>,
}

/// What a stream is asked for so that it reaches `desired`, which is nothing once it is there.
pub open spec fn pending_for(desired: DesiredVolume, raw_percent: u32, muted: bool) -> Option<
    DesiredVolume,
> {
    if level::confirms(desired, raw_percent, muted) {
        None
    } else {
        Some(desired)
    }
}

/// `stream`, asked for `desired`.
pub open spec fn asked_for(stream: TrackedStream, desired: DesiredVolume) -> TrackedStream {
    TrackedStream { pending: pending_for(desired, stream.raw_percent, stream.muted), ..stream }
}

/// What follows from the report of one stream.
#[derive(Debug, Clone, Copy, PartialEq, Eq, Structural)]
pub enum StreamUpdate {
    /// Tell the application of the state.
    Publish(VolumeEvent),
    /// Ask the reporting stream for the desired state.
    Apply(DesiredVolume),
    /// Tell the application, and ask every other stream that differs for the same state.
    PublishAndApply { event: VolumeEvent, desired: DesiredVolume, except: u32 },
}

/// The state of a tracker.
pub struct TrackerView {
    pub streams: Map<u32, TrackedStream>,
    pub desired: Option<DesiredVolume>,
    pub authoritative_index: Option<u32>,
}

impl TrackerView {
    /// A stream is waited for exactly when its last report differs from the desired state, and
    /// the stream whose state is published is one of the tracked ones.
    pub open spec fn wf(self) -> bool {
        &&& forall|i: u32| #[trigger]
            self.streams.contains_key(i) ==> self.desired is Some && self.streams[i] == asked_for(
                self.streams[i],
                self.desired->0,
            )
        &&& self.authoritative_index matches Some(i) ==> self.streams.contains_key(i)
    }

    /// Every stream asked for `desired`.
    pub open spec fn with_desired(self, desired: DesiredVolume) -> TrackerView {
        TrackerView {
            streams: self.streams.map_values(|s: TrackedStream| asked_for(s, desired)),
            desired: Some(desired),
            ..self
        }
    }

    /// The state after stream `index` has reported.
    pub open spec fn after_report(
        self,
        index: u32,
        raw_percent: u32,
        muted: bool,
        channels: u8,
    ) -> TrackerView {
        let reported = |pending: Option<DesiredVolume>|
            TrackedStream { raw_percent, muted, channels, pending };
        let own = DesiredVolume { raw_percent, muted };
        if self.streams.contains_key(index) {
            match self.streams[index].pending {
                Some(desired) => TrackerView {
                    streams: self.streams.insert(
                        index,
                        reported(pending_for(desired, raw_percent, muted)),
                    ),
                    authoritative_index: if level::confirms(desired, raw_percent, muted) {
                        Some(index)
                    } else {
                        self.authoritative_index
                    },
                    ..self
                },
                None => TrackerView {
                    streams: self.with_desired(own).streams.insert(index, reported(None)),
                    desired: Some(own),
                    authoritative_index: Some(index),
                },
            }
        } else {
            match self.desired {
                Some(desired) => TrackerView {
                    streams: self.streams.insert(
                        index,
                        reported(pending_for(desired, raw_percent, muted)),
                    ),
                    authoritative_index: if level::confirms(desired, raw_percent, muted)
                        && self.authoritative_index is None {
                        Some(index)
                    } else {
                        self.authoritative_index
                    },
                    ..self
                },
                None => TrackerView {
                    streams: self.streams.insert(index, reported(None)),
                    desired: Some(own),
                    authoritative_index: Some(index),
                },
            }
        }
    }

    /// What follows from the report of stream `index`.
    pub open spec fn update_for(self, index: u32, raw_percent: u32, muted: bool) -> StreamUpdate {
        let event = VolumeEvent::Available { raw_percent, muted };
        let awaited = if self.streams.contains_key(index) {
            self.streams[index].pending
        } else {
            self.desired
        };
        match awaited {
            Some(desired) => if level::confirms(desired, raw_percent, muted) {
                StreamUpdate::Publish(event)
            } else {
                StreamUpdate::Apply(desired)
            },
            None => if self.streams.contains_key(index) {
                StreamUpdate::PublishAndApply {
                    event,
                    desired: DesiredVolume { raw_percent, muted },
                    except: index,
                }
            } else {
                StreamUpdate::Publish(event)
            },
        }
    }

    /// The state to publish: that of the authoritative stream, if there is one.
    pub open spec fn event(self) -> VolumeEvent {
        match self.authoritative_index {
            Some(i) => if self.streams.contains_key(i) {
                VolumeEvent::Available {
                    raw_percent: self.streams[i].raw_percent,
                    muted: self.streams[i].muted,
                }
            } else {
                VolumeEvent::Unavailable
            },
            None => VolumeEvent::Unavailable,
        }
    }

    /// Whether `found` is the stream of the lowest index that waits for nothing.
    pub open spec fn first_settled(streams: Map<u32, TrackedStream>, found: Option<u32>) -> bool {
        match found {
            Some(i) => {
                &&& streams.contains_key(i)
                &&& streams[i].pending is None
                &&& forall|j: u32| #[trigger] streams.contains_key(j) && j < i ==> streams[j].pending is Some
            },
            None => forall|j: u32| #[trigger] streams.contains_key(j) ==> streams[j].pending is Some,
        }
    }
}

impl TrackerView {
    /// Whether `after` is what is left once stream `index` is gone. If its state was the published
    /// one, the settled stream of the lowest index takes its place.
    pub open spec fn loses(self, index: u32, after: TrackerView) -> bool {
        &&& after.streams == self.streams.remove(index)
        &&& after.desired == self.desired
        &&& if self.authoritative_index == Some(index) {
            TrackerView::first_settled(after.streams, after.authoritative_index)
        } else {
            after.authoritative_index == self.authoritative_index
        }
    }
}

/// Whether `keys` are the keys of `streams`, in ascending order.
pub open spec fn ascending_keys(streams: Map<u32, TrackedStream>, keys: Seq<u32>) -> bool {
    &&& forall|i: int| 0 <= i < keys.len() ==> streams.contains_key(#[trigger] keys[i])
    &&& forall|k: u32| #[trigger] streams.contains_key(k) ==> keys.contains(k)
    &&& forall|i: int, j: int| 0 <= i < j < keys.len() ==> keys[i] < keys[j]
}

/// The streams in ascending order of their index.
fn entries(streams: &BTreeMap<u32, TrackedStream>) -> (r: Vec<(u32, TrackedStream)>)
    ensures
        ascending_keys(streams@, r@.map_values(|e: (u32, TrackedStream)| e.0)),
        forall|i: int|
            0 <= i < r@.len() ==> streams@.contains_key((#[trigger] r@[i]).0)
                && streams@[r@[i].0] == r@[i].1,
        forall|i: int, j: int| 0 <= i < j < r@.len() ==> (#[trigger] r@[i]).0 < (#[trigger] r@[j]).0,
        forall|k: u32| #[trigger]
            streams@.contains_key(k) ==> exists|i: int| 0 <= i < r@.len() && (#[trigger] r@[i]).0 == k,
{
    broadcast use vstd::std_specs::btree::axiom_increasing_seq_meaning;

    let mut r: Vec<(u32, TrackedStream)> = Vec::new();
    let iter = streams.iter();
    let ghost keys: Seq<u32> = vstd::std_specs::iter::IteratorSpec::remaining(&iter).map_values(
        |kv: (&u32, &TrackedStream)| *kv.0,
    );
    assert(vstd::std_specs::btree::increasing_seq(keys));
    assert forall|i: int, j: int| 0 <= i < j < keys.len() implies keys[i] < keys[j] by {
        assert(vstd::laws_cmp::obeys_cmp::<u32>());
        assert(vstd::std_specs::cmp::OrdSpec::cmp_spec(&keys[i], &keys[j]) is Less);
    }
    for entry in it: iter
        invariant
            it.seq().len() == keys.len(),
            forall|i: int| 0 <= i < keys.len() ==> keys[i] == *it.seq()[i].0,
            r@.len() == it.index(),
            forall|i: int| 0 <= i < r@.len() ==> (#[trigger] r@[i]).0 == keys[i],
            forall|i: int|
                0 <= i < r@.len() ==> r@[i].0 == *it.seq()[i].0 && r@[i].1 == *it.seq()[i].1,
    {
        r.push((*entry.0, *entry.1));
    }
    let ghost listed = r@.map_values(|e: (u32, TrackedStream)| e.0);
    assert forall|k: u32| #[trigger] streams@.contains_key(k) implies listed.contains(k)
        && exists|i: int| 0 <= i < r@.len() && (#[trigger] r@[i]).0 == k by {
        let i = choose|i: int| 0 <= i < r@.len() && (#[trigger] r@[i]).0 == k;
        assert(listed[i] == k);
    }
    r
}

/// The playback streams of this application.
#[derive(Debug)]
pub struct StreamTracker {
    pub streams: BTreeMap<u32, TrackedStream>,
    pub desired: Option<DesiredVolume>,
    pub authoritative_index: Option<u32>,
}

impl View for StreamTracker {
    type V = TrackerView;

    open spec fn view(&self) -> TrackerView {
        TrackerView {
            streams: self.streams@,
            desired: self.desired,
            authoritative_index: self.authoritative_index,
        }
    }
}

impl StreamTracker {
    /// A tracker without streams; `desired` is what is known of the wanted state so far.
    pub fn new(desired: Option<DesiredVolume>) -> (r: StreamTracker)
        ensures
            r@ == (TrackerView {
                streams: Map::empty(),
                desired,
                authoritative_index: None,
            }),
            r@.wf(),
    {
        StreamTracker { streams: BTreeMap::new(), desired, authoritative_index: None }
    }

    /// Asks every stream for `desired`.
    fn ask_all(&mut self, desired: DesiredVolume)
        ensures
            final(self)@ == (TrackerView { desired: old(self)@.desired, ..old(self)@.with_desired(desired) }),
    {
        let listed: Vec<(u32, TrackedStream)> = entries(&self.streams);
        let ghost before = self.streams@;
        let mut i: usize = 0;
        while i < listed.len()
            invariant
                i <= listed@.len(),
                self.desired == old(self).desired,
                self.authoritative_index == old(self).authoritative_index,
                before == old(self).streams@,
                self.streams@.dom() == before.dom(),
                forall|j: int|
                    0 <= j < listed@.len() ==> before.contains_key((#[trigger] listed@[j]).0)
                        && before[listed@[j].0] == listed@[j].1,
                forall|j: int, k: int|
                    0 <= j < k < listed@.len() ==> (#[trigger] listed@[j]).0 < (
                    #[trigger] listed@[k]).0,
                forall|j: int|
                    0 <= j < i ==> self.streams@[(#[trigger] listed@[j]).0] == asked_for(
                        listed@[j].1,
                        desired,
                    ),
            decreases listed.len() - i,
        {
            let index: u32 = listed[i].0;
            let mut stream: TrackedStream = listed[i].1;
            stream.pending = if observation_confirms(desired, stream.raw_percent, stream.muted) {
                None
            } else {
                Some(desired)
            };
            self.streams.insert(index, stream);
            assert(self.streams@.dom() =~= before.dom());
            i = i + 1;
        }
        assert(self.streams@ =~= old(self)@.with_desired(desired).streams);
    }

    /// Takes the report of one stream: its level, its mute flag and its channels.
    pub fn observe(&mut self, index: u32, raw_percent: u32, muted: bool, channels: u8) -> (r:
        StreamUpdate)
        ensures
            final(self)@ == old(self)@.after_report(index, raw_percent, muted, channels),
            r == old(self)@.update_for(index, raw_percent, muted),
            old(self)@.wf() ==> final(self)@.wf(),
    {
        let event: VolumeEvent = VolumeEvent::Available { raw_percent, muted };
        let known: Option<TrackedStream> = match self.streams.get(&index) {
            Some(stream) => Some(*stream),
            None => None,
        };
        if let Some(stream) = known {
            if let Some(desired) = stream.pending {
                if observation_confirms(desired, raw_percent, muted) {
                    self.streams.insert(
                        index,
                        TrackedStream { raw_percent, muted, channels, pending: None },
                    );
                    self.authoritative_index = Some(index);
                    return StreamUpdate::Publish(event);
                }
                self.streams.insert(
                    index,
                    TrackedStream { raw_percent, muted, channels, pending: Some(desired) },
                );
                return StreamUpdate::Apply(desired);
            }
            // A report that nothing asked for came from the desktop. It becomes the desired state
            // of every stream.
            let desired: DesiredVolume = DesiredVolume::from_event(raw_percent, muted);
            self.ask_all(desired);
            self.desired = Some(desired);
            self.authoritative_index = Some(index);
            self.streams.insert(
                index,
                TrackedStream { raw_percent, muted, channels, pending: None },
            );
            return StreamUpdate::PublishAndApply { event, desired, except: index };
        }
        if let Some(desired) = self.desired {
            let confirmed: bool = observation_confirms(desired, raw_percent, muted);
            let pending: Option<DesiredVolume> = if confirmed {
                None
            } else {
                Some(desired)
            };
            self.streams.insert(index, TrackedStream { raw_percent, muted, channels, pending });
            if confirmed {
                if self.authoritative_index.is_none() {
                    self.authoritative_index = Some(index);
                }
                StreamUpdate::Publish(event)
            } else {
                StreamUpdate::Apply(desired)
            }
        } else {
            self.desired = Some(DesiredVolume::from_event(raw_percent, muted));
            self.authoritative_index = Some(index);
            self.streams.insert(
                index,
                TrackedStream { raw_percent, muted, channels, pending: None },
            );
            StreamUpdate::Publish(event)
        }
    }

    /// Makes `desired` the state that every stream should have.
    pub fn set_desired(&mut self, desired: DesiredVolume)
        ensures
            final(self)@ == old(self)@.with_desired(desired),
            old(self)@.wf() ==> final(self)@.wf(),
    {
        self.ask_all(desired);
        self.desired = Some(desired);
    }

    /// Forgets one stream.
    pub fn remove(&mut self, index: u32)
        ensures
            old(self)@.loses(index, final(self)@),
            old(self)@.wf() ==> final(self)@.wf(),
    {
        self.streams.remove(&index);
        if let Some(current) = self.authoritative_index {
            if current == index {
                let listed: Vec<(u32, TrackedStream)> = entries(&self.streams);
                let mut found: Option<u32> = None;
                let mut i: usize = 0;
                while i < listed.len() && found.is_none()
                    invariant
                        i <= listed@.len(),
                        found is None ==> forall|j: int|
                            0 <= j < i ==> (#[trigger] listed@[j]).1.pending is Some,
                        found matches Some(f) ==> exists|j: int|
                            0 <= j < listed@.len() && (#[trigger] listed@[j]).0 == f
                                && listed@[j].1.pending is None && forall|k: int|
                                0 <= k < j ==> (#[trigger] listed@[k]).1.pending is Some,
                    decreases listed.len() - i,
                {
                    if listed[i].1.pending.is_none() {
                        found = Some(listed[i].0);
                    }
                    i = i + 1;
                }
                self.authoritative_index = found;
                proof {
                    if found is None {
                        assert forall|k: u32| #[trigger]
                            self.streams@.contains_key(k) implies self.streams@[k].pending is Some by {
                            let j = choose|j: int| 0 <= j < listed@.len() && (#[trigger] listed@[j]).0 == k;
                            assert(listed@[j].1.pending is Some);
                        }
                    }
                }
            }
        }
    }

    /// Forgets every stream.
    pub fn clear(&mut self)
        ensures
            final(self)@ == (TrackerView {
                streams: Map::empty(),
                desired: old(self)@.desired,
                authoritative_index: None,
            }),
            final(self)@.wf(),
    {
        self.streams.clear();
        self.authoritative_index = None;
    }

    /// The state to publish.
    pub fn current_event(&self) -> (r: VolumeEvent)
        ensures
            r == self@.event(),
    {
        match self.authoritative_index {
            Some(index) => match self.streams.get(&index) {
                Some(stream) => VolumeEvent::Available {
                    raw_percent: stream.raw_percent,
                    muted: stream.muted,
                },
                None => VolumeEvent::Unavailable,
            },
            None => VolumeEvent::Unavailable,
        }
    }
}

/// Whether `actions` are the two requests for `desired` of each stream in `keys`, in that order.
pub open spec fn requests_for(
    streams: Map<u32, TrackedStream>,
    keys: Seq<u32>,
    desired: DesiredVolume,
    actions: Seq<PlannedAction>,
) -> bool {
    &&& actions.len() == 2 * keys.len()
    &&& forall|i: int|
        0 <= i < keys.len() ==> {
            &&& actions[2 * i] == level::volume_action(
                #[trigger] keys[i],
                streams[keys[i]].channels,
                desired,
            )
            &&& actions[2 * i + 1] == level::mute_action(keys[i], desired)
        }
}

impl StreamTracker {
    /// The requests that bring every stream to `desired`, in ascending order of the streams.
    pub fn plan(&self, desired: DesiredVolume) -> (r: Vec<PlannedAction>)
        ensures
            exists|keys: Seq<u32>| #[trigger]
                ascending_keys(self@.streams, keys) && requests_for(
                    self@.streams,
                    keys,
                    desired,
                    r@,
                ),
    {
        let listed: Vec<(u32, TrackedStream)> = entries(&self.streams);
        let ghost keys = listed@.map_values(|e: (u32, TrackedStream)| e.0);
        let mut r: Vec<PlannedAction> = Vec::new();
        let mut i: usize = 0;
        while i < listed.len()
            invariant
                i <= listed@.len(),
                keys == listed@.map_values(|e: (u32, TrackedStream)| e.0),
                forall|j: int|
                    0 <= j < listed@.len() ==> self.streams@[(#[trigger] listed@[j]).0]
                        == listed@[j].1,
                requests_for(self@.streams, keys.take(i as int), desired, r@),
            decreases listed.len() - i,
        {
            let actions: [PlannedAction; 2] = planned_actions(listed[i].0, listed[i].1.channels, desired);
            r.push(actions[0]);
            r.push(actions[1]);
            i = i + 1;
        }
        assert(keys.take(i as int) =~= keys);
        r
    }

    /// The requests for every stream but `except` that still waits for `desired`, in ascending
    /// order of the streams.
    pub fn plan_except(&self, desired: DesiredVolume, except: u32) -> (r: Vec<PlannedAction>)
        ensures
            exists|keys: Seq<u32>| #[trigger]
                ascending_keys(self@.streams, keys) && requests_for(
                    self@.streams,
                    keys.filter(self@.waits_for(desired, except)),
                    desired,
                    r@,
                ),
    {
        let listed: Vec<(u32, TrackedStream)> = entries(&self.streams);
        let ghost keys = listed@.map_values(|e: (u32, TrackedStream)| e.0);
        let ghost wanted = self@.waits_for(desired, except);
        let mut r: Vec<PlannedAction> = Vec::new();
        let mut i: usize = 0;
        assert(keys.take(0).filter(wanted) =~= Seq::<u32>::empty()) by {
            reveal(Seq::filter);
        }
        while i < listed.len()
            invariant
                i <= listed@.len(),
                keys == listed@.map_values(|e: (u32, TrackedStream)| e.0),
                wanted == self@.waits_for(desired, except),
                forall|j: int|
                    0 <= j < listed@.len() ==> self.streams@[(#[trigger] listed@[j]).0]
                        == listed@[j].1,
                requests_for(self@.streams, keys.take(i as int).filter(wanted), desired, r@),
            decreases listed.len() - i,
        {
            let index: u32 = listed[i].0;
            let stream: TrackedStream = listed[i].1;
            let waits: bool = match stream.pending {
                Some(pending) => pending == desired,
                None => false,
            };
            assert(keys.take(i + 1).drop_last() =~= keys.take(i as int));
            assert(keys.take(i + 1).last() == index);
            assert(keys.take(i + 1).filter(wanted) == if wanted(index) {
                keys.take(i as int).filter(wanted).push(index)
            } else {
                keys.take(i as int).filter(wanted)
            }) by {
                reveal(Seq::filter);
            }
            if index != except && waits {
                let actions: [PlannedAction; 2] = planned_actions(index, stream.channels, desired);
                r.push(actions[0]);
                r.push(actions[1]);
            }
            i = i + 1;
        }
        assert(keys.take(i as int) =~= keys);
        r
    }
}

impl TrackerView {
    /// The streams other than `except` that wait for `desired`.
    pub open spec fn waits_for(self, desired: DesiredVolume, except: u32) -> spec_fn(u32) -> bool {
        |k: u32| k != except && self.streams[k].pending == Some(desired)
    }
}

/// There is one way only to list the keys of a map in ascending order.
pub proof fn law_ascending_keys_are_unique(
    streams: Map<u32, TrackedStream>,
    a: Seq<u32>,
    b: Seq<u32>,
)
    requires
        ascending_keys(streams, a),
        ascending_keys(streams, b),
    ensures
        a == b,
    decreases a.len(),
{
    if a.len() == 0 {
        if b.len() > 0 {
            assert(streams.contains_key(b[0]));
        }
    } else {
        assert(streams.contains_key(a.last()));
        assert(b.contains(a.last()));
        assert(streams.contains_key(b.last()));
        assert(a.contains(b.last()));
        assert(a.last() == b.last());
        let rest = streams.remove(a.last());
        assert forall|i: int| 0 <= i < a.len() - 1 implies rest.contains_key(
            #[trigger] a.drop_last()[i],
        ) by {
            assert(streams.contains_key(a[i]));
        }
        assert forall|i: int| 0 <= i < b.len() - 1 implies rest.contains_key(
            #[trigger] b.drop_last()[i],
        ) by {
            assert(streams.contains_key(b[i]));
        }
        assert forall|k: u32| #[trigger] rest.contains_key(k) implies a.drop_last().contains(k)
            && b.drop_last().contains(k) by {
            assert(streams.contains_key(k));
            let i = choose|i: int| 0 <= i < a.len() && a[i] == k;
            let j = choose|j: int| 0 <= j < b.len() && b[j] == k;
            assert(a.drop_last()[i] == k);
            assert(b.drop_last()[j] == k);
        }
        law_ascending_keys_are_unique(rest, a.drop_last(), b.drop_last());
        assert(a =~= a.drop_last().push(a.last()));
        assert(b =~= b.drop_last().push(b.last()));
    }
}

/// A report that differs from the state that a stream has been asked for is answered with the
/// same request again, and changes neither the desired state nor which stream is authoritative.
pub proof fn law_unconfirmed_report_is_asked_again(
    tracker: TrackerView,
    index: u32,
    raw_percent: u32,
    muted: bool,
    channels: u8,
)
    requires
        tracker.wf(),
        tracker.desired is Some,
        tracker.streams.contains_key(index) ==> tracker.streams[index].pending is Some,
        !level::confirms(tracker.desired->0, raw_percent, muted),
    ensures
        tracker.update_for(index, raw_percent, muted) == StreamUpdate::Apply(tracker.desired->0),
        tracker.after_report(index, raw_percent, muted, channels).desired == tracker.desired,
        tracker.after_report(index, raw_percent, muted, channels).authoritative_index
            == tracker.authoritative_index,
        tracker.after_report(index, raw_percent, muted, channels).streams[index].pending
            == tracker.desired,
{
}

/// A change of a settled stream that nobody asked for becomes the desired state, is published, and
/// every other stream that differs from it is asked for it.
pub proof fn law_external_change_is_shared(
    tracker: TrackerView,
    index: u32,
    raw_percent: u32,
    muted: bool,
    channels: u8,
    other: u32,
)
    requires
        tracker.wf(),
        tracker.streams.contains_key(index),
        tracker.streams[index].pending is None,
        tracker.streams.contains_key(other),
        other != index,
    ensures
        ({
            let own = DesiredVolume { raw_percent, muted };
            let after = tracker.after_report(index, raw_percent, muted, channels);
            &&& after.desired == Some(own)
            &&& after.event() == VolumeEvent::Available { raw_percent, muted }
            &&& after.streams[other] == asked_for(tracker.streams[other], own)
            &&& tracker.update_for(index, raw_percent, muted) == StreamUpdate::PublishAndApply {
                event: VolumeEvent::Available { raw_percent, muted },
                desired: own,
                except: index,
            }
        }),
{
}

/// The report that a stream has reached the desired state settles it and is published.
pub proof fn law_confirming_report_settles(
    tracker: TrackerView,
    index: u32,
    raw_percent: u32,
    muted: bool,
    channels: u8,
)
    requires
        tracker.wf(),
        tracker.desired == Some(DesiredVolume { raw_percent, muted }),
        tracker.streams.contains_key(index) ==> tracker.streams[index].pending is Some,
    ensures
        tracker.update_for(index, raw_percent, muted) == StreamUpdate::Publish(
            VolumeEvent::Available { raw_percent, muted },
        ),
        tracker.after_report(index, raw_percent, muted, channels).streams[index].pending is None,
        tracker.after_report(index, raw_percent, muted, channels).desired == tracker.desired,
{
}

/// Once a stream reports the raw level that a request named, rounded to a percentage, the request
/// is confirmed; this holds up to the highest level that the sound server takes.
pub proof fn law_request_is_confirmed_by_its_report(desired: DesiredVolume)
    requires
        (level::RAW_NORMAL * desired.raw_percent + 50) / 100 <= level::RAW_MAX,
    ensures
        level::confirms(
            desired,
            level::percent_of_raw(level::raw_of_percent(desired.raw_percent) as u32) as u32,
            desired.muted,
        ),
{
    level::law_percent_round_trip(desired.raw_percent);
}

/// A state that is published after a report is the state that the tracker gives from then on, where
/// no other stream gave it before.
pub proof fn law_published_state_stands(
    tracker: TrackerView,
    index: u32,
    raw_percent: u32,
    muted: bool,
    channels: u8,
    event: VolumeEvent,
)
    requires
        tracker.authoritative_index is None,
        tracker.update_for(index, raw_percent, muted) == StreamUpdate::Publish(event),
    ensures
        event == (VolumeEvent::Available { raw_percent, muted }),
        tracker.after_report(index, raw_percent, muted, channels).event() == event,
{
}

/// Whenever a state is published after a report, the tracker has a state to give.
pub proof fn law_publishing_makes_available(
    tracker: TrackerView,
    index: u32,
    raw_percent: u32,
    muted: bool,
    channels: u8,
)
    requires
        tracker.wf(),
        !(tracker.update_for(index, raw_percent, muted) is Apply),
    ensures
        tracker.after_report(index, raw_percent, muted, channels).event() != VolumeEvent::Unavailable,
        tracker.after_report(index, raw_percent, muted, channels).wf(),
{
}

/// The first stream, where nothing is desired yet, says what is desired, and its state is published
/// and given.
pub proof fn law_first_stream_is_followed(
    tracker: TrackerView,
    index: u32,
    raw_percent: u32,
    muted: bool,
    channels: u8,
)
    requires
        tracker.wf(),
        tracker.desired is None,
    ensures
        ({
            let event = VolumeEvent::Available { raw_percent, muted };
            let after = tracker.after_report(index, raw_percent, muted, channels);
            &&& tracker.update_for(index, raw_percent, muted) == StreamUpdate::Publish(event)
            &&& after.desired == Some(DesiredVolume { raw_percent, muted })
            &&& after.event() == event
            &&& after.streams[index].pending is None
        }),
{
}

/// A stream that was brought to the desired state is the one whose state is given; a stream that
/// already appears in it takes that place only where it is free.
pub proof fn law_confirmed_stream_is_given(
    tracker: TrackerView,
    index: u32,
    raw_percent: u32,
    muted: bool,
    channels: u8,
)
    requires
        tracker.wf(),
        tracker.desired == Some(DesiredVolume { raw_percent, muted }),
        tracker.streams.contains_key(index) ==> tracker.streams[index].pending is Some,
    ensures
        ({
            let after = tracker.after_report(index, raw_percent, muted, channels);
            &&& tracker.streams.contains_key(index) || tracker.authoritative_index is None
                ==> after.authoritative_index == Some(index) && after.event()
                == VolumeEvent::Available { raw_percent, muted }
            &&& !tracker.streams.contains_key(index) && tracker.authoritative_index is Some
                ==> after.authoritative_index == tracker.authoritative_index && after.event()
                == tracker.event()
        }),
{
}

/// A report in any other state than the desired one, of a stream that was asked for that one or is
/// new, is answered with the request for the desired state, and nothing is published.
pub proof fn law_other_states_are_not_taken_over(
    tracker: TrackerView,
    index: u32,
    raw_percent: u32,
    muted: bool,
    channels: u8,
    desired: DesiredVolume,
)
    requires
        tracker.wf(),
        tracker.desired == Some(desired),
        raw_percent != desired.raw_percent || muted != desired.muted,
        tracker.streams.contains_key(index) ==> tracker.streams[index].pending is Some,
    ensures
        ({
            let after = tracker.after_report(index, raw_percent, muted, channels);
            &&& tracker.update_for(index, raw_percent, muted) == StreamUpdate::Apply(desired)
            &&& after.desired == Some(desired)
            &&& after.authoritative_index == tracker.authoritative_index
            &&& after.streams[index].pending == Some(desired)
            &&& tracker.authoritative_index != Some(index) ==> after.event() == tracker.event()
        }),
{
}

/// A report is remembered as it came, and changes neither level nor flag of any other stream.
pub proof fn law_report_is_remembered(
    tracker: TrackerView,
    index: u32,
    raw_percent: u32,
    muted: bool,
    channels: u8,
    other: u32,
)
    requires
        other != index,
    ensures
        ({
            let after = tracker.after_report(index, raw_percent, muted, channels);
            &&& after.streams.contains_key(index)
            &&& after.streams[index].raw_percent == raw_percent
            &&& after.streams[index].muted == muted
            &&& after.streams[index].channels == channels
            &&& after.streams.contains_key(other) <==> tracker.streams.contains_key(other)
            &&& tracker.streams.contains_key(other) ==> {
                &&& after.streams[other].raw_percent == tracker.streams[other].raw_percent
                &&& after.streams[other].muted == tracker.streams[other].muted
                &&& after.streams[other].channels == tracker.streams[other].channels
            }
            &&& tracker.streams.contains_key(other) && !(tracker.update_for(
                index,
                raw_percent,
                muted,
            ) is PublishAndApply) ==> after.streams[other] == tracker.streams[other]
        }),
{
}

/// A state that is asked for is waited for on just those streams that are not in it; what is known
/// of the streams, and which of them is given, stays.
pub proof fn law_request_is_waited_for(tracker: TrackerView, desired: DesiredVolume, index: u32)
    ensures
        ({
            let after = tracker.with_desired(desired);
            &&& after.desired == Some(desired)
            &&& after.authoritative_index == tracker.authoritative_index
            &&& after.event() == tracker.event()
            &&& after.streams.contains_key(index) <==> tracker.streams.contains_key(index)
            &&& tracker.streams.contains_key(index) ==> {
                let stream = tracker.streams[index];
                let waiting = after.streams[index];
                &&& waiting.raw_percent == stream.raw_percent
                &&& waiting.muted == stream.muted
                &&& waiting.channels == stream.channels
                &&& stream.raw_percent == desired.raw_percent && stream.muted == desired.muted
                    ==> waiting.pending is None
                &&& stream.raw_percent != desired.raw_percent || stream.muted != desired.muted
                    ==> waiting.pending == Some(desired)
            }
        }),
{
}

/// Where a stream goes that was not the given one, the state that is given stays.
pub proof fn law_losing_another_stream_changes_nothing(
    tracker: TrackerView,
    index: u32,
    after: TrackerView,
)
    requires
        tracker.wf(),
        tracker.loses(index, after),
        tracker.authoritative_index != Some(index),
    ensures
        after.event() == tracker.event(),
        after.desired == tracker.desired,
        !after.streams.contains_key(index),
        forall|k: u32| #[trigger]
            after.streams.contains_key(k) <==> tracker.streams.contains_key(k) && k != index,
{
}

/// Where the given stream goes, the state of the settled stream of the lowest index is given; without
/// a settled one there is none to give.
pub proof fn law_another_settled_stream_takes_over(
    tracker: TrackerView,
    index: u32,
    after: TrackerView,
    other: u32,
)
    requires
        tracker.wf(),
        tracker.loses(index, after),
        tracker.authoritative_index == Some(index),
    ensures
        tracker.streams.contains_key(other) && other != index && tracker.streams[other].pending is None
            ==> after.event() != VolumeEvent::Unavailable && (after.authoritative_index matches Some(
            lowest,
        ) && lowest <= other),
        after.authoritative_index matches Some(k) ==> k != index && tracker.streams.contains_key(k)
            && tracker.streams[k].pending is None && after.event() == (VolumeEvent::Available {
            raw_percent: tracker.streams[k].raw_percent,
            muted: tracker.streams[k].muted,
        }),
        after.authoritative_index is None ==> after.event() == VolumeEvent::Unavailable,
        after.desired == tracker.desired,
{
    if tracker.streams.contains_key(other) && other != index {
        assert(after.streams.contains_key(other));
    }
}

/// A listing in ascending order has every stream, once, and nothing else.
pub proof fn law_listing_has_every_stream(
    streams: Map<u32, TrackedStream>,
    keys: Seq<u32>,
    index: u32,
    i: int,
    j: int,
)
    requires
        ascending_keys(streams, keys),
    ensures
        streams.contains_key(index) <==> keys.contains(index),
        0 <= i < j < keys.len() ==> keys[i] < keys[j],
{
    if keys.contains(index) {
        let k = choose|k: int| 0 <= k < keys.len() && keys[k] == index;
        assert(streams.contains_key(keys[k]));
    }
}

/// After a change that nobody asked for, just those other streams are asked for it that are not in
/// that state.
pub proof fn law_differing_streams_are_asked(
    tracker: TrackerView,
    index: u32,
    raw_percent: u32,
    muted: bool,
    channels: u8,
    other: u32,
)
    requires
        tracker.wf(),
        tracker.streams.contains_key(index),
        tracker.streams[index].pending is None,
        tracker.streams.contains_key(other),
    ensures
        ({
            let after = tracker.after_report(index, raw_percent, muted, channels);
            let asked = after.waits_for(DesiredVolume { raw_percent, muted }, index);
            asked(other) <==> other != index && (tracker.streams[other].raw_percent != raw_percent
                || tracker.streams[other].muted != muted)
        }),
{
}

/// Each listed stream is asked for the desired level, on all its channels, and for the desired flag;
/// the raw level is the one nearest to the percentage, up to the highest.
pub proof fn law_requests_name_the_desired_state(
    streams: Map<u32, TrackedStream>,
    keys: Seq<u32>,
    desired: DesiredVolume,
    actions: Seq<PlannedAction>,
    i: int,
)
    requires
        requests_for(streams, keys, desired, actions),
        0 <= i < keys.len(),
    ensures
        actions.len() == 2 * keys.len(),
        actions[2 * i] matches PlannedAction::SetVolume { index, channels, raw_volume } && {
            &&& index == keys[i]
            &&& channels == streams[keys[i]].channels
            &&& -50 <= raw_volume * 100 - desired.raw_percent * 65536 <= 50 || (raw_volume
                == 0x7fff_ffff && raw_volume * 100 <= desired.raw_percent * 65536)
        },
        actions[2 * i + 1] == (PlannedAction::SetMute { index: keys[i], muted: desired.muted }),
{
    assert(keys[i] == keys[i]);
    level::law_raw_level_is_the_nearest(desired.raw_percent);
}

impl Default for StreamTracker {
    fn default() -> (r: StreamTracker)
        ensures
            r@ == (TrackerView {
                streams: Map::empty(),
                desired: None,
                authoritative_index: None,
            }),
    {
        StreamTracker::new(None)
    }
}

} // verus!
