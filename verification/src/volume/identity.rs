//! How a playback stream is recognised as one of this application instance.
use vstd::prelude::*;

use crate::number;
use crate::number::decimal_string;
use crate::text;
use crate::text::{same_text, trimmed};
use crate::volume::properties;
use crate::volume::properties::{merge_pipewire_props, APPLICATION_NAME};

verus! {

/// What every instance marker begins with.
pub const MARKER_PREFIX: &'static str = "listenmoe-";

/// The environment variable with PipeWire's stream properties.
pub const PIPEWIRE_PROPS: &'static str = "PIPEWIRE_PROPS";

pub const PULSE_PROP_APPLICATION_NAME: &'static str = "PULSE_PROP_application.name";

pub const PULSE_PROP_APPLICATION_ID: &'static str = "PULSE_PROP_application.id";

pub const PULSE_PROP_APPLICATION_PROCESS_ID: &'static str = "PULSE_PROP_application.process.id";

pub const PULSE_PROP_STREAM_INSTANCE: &'static str = "PULSE_PROP_listenmoe.instance.id";

/// Identity injected into the playback stream's properties at startup.
#[derive(Debug, Clone, PartialEq, Eq)]
pub struct StreamIdentity {
    pub marker: String,
    pub process_id: String,
    pub allow_process_id_fallback: bool,
}

/// A text, if there is one and something is left of it without the white space around it.
pub open spec fn material(kernel_uuid: Option<Seq<char>>) -> Option<Seq<char>> {
    match kernel_uuid {
        Some(uuid) => if text::trim(uuid).len() > 0 {
            Some(text::trim(uuid))
        } else {
            None
        },
        None => None,
    }
}

/// The marker: made of the kernel's random identifier or, without it, of the process and the time.
pub open spec fn marker_of(
    kernel_uuid: Option<Seq<char>>,
    process_id: Seq<char>,
    unix_nanos: u128,
) -> Seq<char> {
    match material(kernel_uuid) {
        Some(uuid) => MARKER_PREFIX@ + uuid,
        None => MARKER_PREFIX@ + process_id + seq!['-'] + number::decimal(unix_nanos as nat),
    }
}

pub fn instance_marker_from(
    kernel_uuid: Option<&str>,
    process_id: &str,
    unix_nanos: u128,
) -> (r: String)
    ensures
        r@ == marker_of(
            text::optional(kernel_uuid),
            process_id@,
            unix_nanos,
        ),
{
    let mut r: String = MARKER_PREFIX.to_owned();
    if let Some(uuid) = kernel_uuid {
        let uuid: String = trimmed(uuid);
        if !uuid.as_str().is_empty() {
            r.push_str(uuid.as_str());
            return r;
        }
    }
    r.push_str(process_id);
    r.push('-');
    let nanos: String = decimal_string(unix_nanos);
    r.push_str(nanos.as_str());
    assert(r@ =~= MARKER_PREFIX@ + process_id@ + seq!['-'] + number::decimal(unix_nanos as nat));
    r
}

/// Without the kernel's identifier, two instances of one process number that start at different
/// times have different markers.
pub proof fn law_fallback_markers_differ(process_id: Seq<char>, a: u128, b: u128)
    requires
        a != b,
    ensures
        marker_of(None, process_id, a) != marker_of(None, process_id, b),
{
    let head = MARKER_PREFIX@ + process_id + seq!['-'];
    let x = marker_of(None, process_id, a);
    let y = marker_of(None, process_id, b);
    assert(x.skip(head.len() as int) =~= number::decimal(a as nat));
    assert(y.skip(head.len() as int) =~= number::decimal(b as nat));
    if x == y {
        number::lemma_decimal_injective(a as nat, b as nat);
    }
}

/// A marker is never just the process number.
pub proof fn law_marker_is_not_the_process(
    kernel_uuid: Option<Seq<char>>,
    process_id: Seq<char>,
    unix_nanos: u128,
)
    requires
        number::all_digits(process_id),
    ensures
        marker_of(kernel_uuid, process_id, unix_nanos) != process_id,
{
    reveal_strlit("listenmoe-");
    let m = marker_of(kernel_uuid, process_id, unix_nanos);
    assert(m[0] == 'l');
    assert(number::is_digit(process_id[0]));
}

impl StreamIdentity {
    pub fn new(marker: &str, process_id: &str, allow_process_id_fallback: bool) -> (r:
        StreamIdentity)
        ensures
            r.marker@ == marker@,
            r.process_id@ == process_id@,
            r.allow_process_id_fallback == allow_process_id_fallback,
    {
        StreamIdentity {
            marker: marker.to_owned(),
            process_id: process_id.to_owned(),
            allow_process_id_fallback,
        }
    }

    /// The identity of the process with the given number, made of what was read at startup: the
    /// kernel's random identifier, the time, and whether the process runs in a sandbox where
    /// process numbers mean nothing outside.
    pub fn for_current_process(
        process_id: u32,
        kernel_uuid: Option<&str>,
        unix_nanos: u128,
        in_flatpak: bool,
    ) -> (r: StreamIdentity)
        ensures
            r.process_id@ == number::decimal(process_id as nat),
            r.marker@ == marker_of(
                text::optional(kernel_uuid),
                number::decimal(process_id as nat),
                unix_nanos,
            ),
            r.allow_process_id_fallback == !in_flatpak,
    {
        let process_id: String = decimal_string(process_id as u128);
        let marker: String = instance_marker_from(kernel_uuid, process_id.as_str(), unix_nanos);
        StreamIdentity { marker, process_id, allow_process_id_fallback: !in_flatpak }
    }

    pub fn marker(&self) -> (r: &str)
        ensures
            r@ == self.marker@,
    {
        self.marker.as_str()
    }
}

/// Whether a process runs in Flatpak: by its environment or by the file that the sandbox provides.
pub fn running_in_flatpak(has_flatpak_id: bool, has_flatpak_info: bool) -> (r: bool)
    ensures
        r == (has_flatpak_id || has_flatpak_info),
{
    has_flatpak_id || has_flatpak_info
}

/// Whether a stream with the given marker and process belongs to `identity`. A marker decides
/// alone; only a stream without one is recognised by its process, and only where that is allowed.
pub open spec fn belongs_to(
    instance_marker: Option<Seq<char>>,
    process_id: Option<Seq<char>>,
    identity: StreamIdentity,
) -> bool {
    match instance_marker {
        Some(marker) => marker == identity.marker@,
        None => identity.allow_process_id_fallback && process_id == Some(identity.process_id@),
    }
}

pub fn matches_stream_identity(
    instance_marker: Option<&str>,
    process_id: Option<&str>,
    identity: &StreamIdentity,
) -> (r: bool)
    ensures
        r == belongs_to(
            text::optional(instance_marker),
            text::optional(process_id),
            *identity,
        ),
{
    match instance_marker {
        Some(marker) => same_text(marker, identity.marker.as_str()),
        None => match process_id {
            Some(process_id) => identity.allow_process_id_fallback && same_text(
                process_id,
                identity.process_id.as_str(),
            ),
            None => false,
        },
    }
}

/// The environment variables, with their values, that give a playback stream its identity, in the
/// order in which they are set. `existing` is the value that the stream properties have already.
pub fn configure_stream_identity(
    identity: &StreamIdentity,
    existing: Option<&str>,
    app_id: &str,
) -> (r: Vec<(String, String)>)
    ensures
        r@.len() == 5,
        r@[0].0@ == PIPEWIRE_PROPS@,
        r@[0].1@ == properties::merged(
            text::optional(existing),
            app_id@,
            identity.marker@,
            identity.process_id@,
        ),
        r@[1].0@ == PULSE_PROP_APPLICATION_NAME@,
        r@[1].1@ == APPLICATION_NAME@,
        r@[2].0@ == PULSE_PROP_APPLICATION_ID@,
        r@[2].1@ == app_id@,
        r@[3].0@ == PULSE_PROP_APPLICATION_PROCESS_ID@,
        r@[3].1@ == identity.process_id@,
        r@[4].0@ == PULSE_PROP_STREAM_INSTANCE@,
        r@[4].1@ == identity.marker@,
{
    let merged: String = merge_pipewire_props(
        existing,
        app_id,
        identity.marker(),
        identity.process_id.as_str(),
    );
    let mut r: Vec<(String, String)> = Vec::new();
    r.push((PIPEWIRE_PROPS.to_owned(), merged));
    r.push((PULSE_PROP_APPLICATION_NAME.to_owned(), APPLICATION_NAME.to_owned()));
    r.push((PULSE_PROP_APPLICATION_ID.to_owned(), app_id.to_owned()));
    r.push((PULSE_PROP_APPLICATION_PROCESS_ID.to_owned(), identity.process_id.clone()));
    r.push((PULSE_PROP_STREAM_INSTANCE.to_owned(), identity.marker.clone()));
    r
}

/// The kernel's identifier makes the marker, without the white space around it; one that is blank
/// counts as missing.
pub proof fn law_marker_is_made_of_the_identifier(
    before: Seq<char>,
    uuid: Seq<char>,
    after: Seq<char>,
    process_id: Seq<char>,
    unix_nanos: u128,
)
    requires
        forall|i: int| 0 <= i < before.len() ==> text::is_space(#[trigger] before[i]),
        forall|i: int| 0 <= i < after.len() ==> text::is_space(#[trigger] after[i]),
        uuid.len() > 0,
        !text::is_space(uuid[0]),
        !text::is_space(uuid.last()),
    ensures
        marker_of(Some(before + uuid + after), process_id, unix_nanos) == "listenmoe-"@ + uuid,
        marker_of(Some(before), process_id, unix_nanos) == marker_of(None, process_id, unix_nanos),
{
    text::law_white_space_around_is_trimmed(before, uuid, after);
    text::law_trimming_takes_white_space_only(before);
    let (a, b) = choose|a: int, b: int|
        0 <= a <= b <= before.len() && #[trigger] before.subrange(a, b) == text::trim(before);
    if text::trim(before).len() > 0 {
        assert(text::trim(before)[0] == before[a]);
    }
}

/// Every marker begins with the application's word; without an identifier the process and the time
/// follow it.
pub proof fn law_marker_begins_with_the_application(
    kernel_uuid: Option<Seq<char>>,
    process_id: Seq<char>,
    unix_nanos: u128,
)
    ensures
        "listenmoe-"@.is_prefix_of(marker_of(kernel_uuid, process_id, unix_nanos)),
        marker_of(None, process_id, unix_nanos) == "listenmoe-"@ + process_id + "-"@
            + number::decimal(unix_nanos as nat),
{
    reveal_strlit("-");
    let m = marker_of(kernel_uuid, process_id, unix_nanos);
    assert(m.subrange(0, "listenmoe-"@.len() as int) =~= "listenmoe-"@);
    assert("-"@ =~= seq!['-']);
}

/// A stream with the own marker is an own one, whatever its process; one with another marker is not,
/// even in the own process. Without a marker the process decides, where that is allowed.
pub proof fn law_marker_goes_before_the_process(
    identity: StreamIdentity,
    marker: Seq<char>,
    process_id: Option<Seq<char>>,
)
    ensures
        belongs_to(Some(identity.marker@), process_id, identity),
        marker != identity.marker@ ==> !belongs_to(Some(marker), process_id, identity),
        !identity.allow_process_id_fallback ==> !belongs_to(None, process_id, identity),
        identity.allow_process_id_fallback ==> belongs_to(
            None,
            Some(identity.process_id@),
            identity,
        ),
        process_id != Some(identity.process_id@) ==> !belongs_to(None, process_id, identity),
{
}

} // verus!
