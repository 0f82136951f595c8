//! Stream properties in the notation of PipeWire: `{ key = "value" key = "value" }`.
use vstd::prelude::*;

use crate::locale::catalog;
use crate::text;
use crate::text::{chars_of, is_whitespace, string_of, trim_chars};

verus! {

/// The property that ties an audio stream to the controller of the same application instance.
pub const STREAM_INSTANCE_PROPERTY: &'static str = "listenmoe.instance.id";

/// The property that holds the process of a stream.
pub const APPLICATION_PROCESS_ID: &'static str = "application.process.id";

/// The property that holds the application's identifier.
pub const APPLICATION_ID_PROPERTY: &'static str = "application.id";

/// The property that holds the application's name.
pub const APPLICATION_NAME_PROPERTY: &'static str = "application.name";

/// The application's name.
pub const APPLICATION_NAME: &'static str = "Listen Moe";

/// How one character of a value is written between quotes.
pub open spec fn escaped_char(c: char) -> Seq<char> {
    if c == '\\' {
        seq!['\\', '\\']
    } else if c == '"' {
        seq!['\\', '"']
    } else if c == '\n' {
        seq!['\\', 'n']
    } else if c == '\r' {
        seq!['\\', 'r']
    } else if c == '\t' {
        seq!['\\', 't']
    } else {
        seq![c]
    }
}

/// How a value is written between quotes.
pub open spec fn escaped(value: Seq<char>) -> Seq<char>
    decreases value.len(),
{
    if value.len() == 0 {
        Seq::empty()
    } else {
        escaped(value.drop_last()) + escaped_char(value.last())
    }
}

pub fn escape_spa_string(value: &str) -> (r: String)
    ensures
        r@ == escaped(value@),
{
    let v: Vec<char> = chars_of(value);
    let mut r: String = String::new();
    let mut i: usize = 0;
    while i < v.len()
        invariant
            i <= v@.len(),
            v@ == value@,
            r@ == escaped(v@.take(i as int)),
        decreases v.len() - i,
    {
        let c: char = v[i];
        let ghost before = r@;
        if c == '\\' {
            r.push('\\');
            r.push('\\');
        } else if c == '"' {
            r.push('\\');
            r.push('"');
        } else if c == '\n' {
            r.push('\\');
            r.push('n');
        } else if c == '\r' {
            r.push('\\');
            r.push('r');
        } else if c == '\t' {
            r.push('\\');
            r.push('t');
        } else {
            r.push(c);
        }
        assert(r@ =~= before + escaped_char(c));
        assert(v@.take(i + 1).drop_last() =~= v@.take(i as int));
        i = i + 1;
    }
    assert(v@.take(i as int) =~= v@);
    r
}

/// One property as it is written, with the blank before it.
pub open spec fn property(key: Seq<char>, value: Seq<char>) -> Seq<char> {
    seq![' '] + key + seq![' ', '=', ' ', '"'] + escaped(value) + seq!['"']
}

pub fn append_pipewire_property(output: &mut String, key: &str, value: &str)
    ensures
        final(output)@ == old(output)@ + property(key@, value@),
{
    output.push(' ');
    output.push_str(key);
    output.push(' ');
    output.push('=');
    output.push(' ');
    output.push('"');
    let quoted: String = escape_spa_string(value);
    output.push_str(quoted.as_str());
    output.push('"');
    assert(output@ =~= old(output)@ + property(key@, value@));
}

/// How far an object has been read: the braces that are open, whether a quoted value or an escape
/// in it is open, and whether the outermost brace has been closed.
pub struct Scan {
    pub depth: u32,
    pub quoted: bool,
    pub escaped: bool,
    pub closed: bool,
}

/// Where reading begins.
pub open spec fn scan_start() -> Scan {
    Scan { depth: 0, quoted: false, escaped: false, closed: false }
}

/// Reading one more character, unless it cannot stand there.
pub open spec fn scan_char(scan: Scan, c: char) -> Option<Scan> {
    if scan.closed && !text::is_space(c) {
        None
    } else if scan.escaped {
        Some(Scan { escaped: false, ..scan })
    } else if scan.quoted && c == '\\' {
        Some(Scan { escaped: true, ..scan })
    } else if c == '"' {
        Some(Scan { quoted: !scan.quoted, ..scan })
    } else if scan.quoted {
        Some(scan)
    } else if c == '{' {
        Some(
            Scan {
                depth: if scan.depth < u32::MAX {
                    (scan.depth + 1) as u32
                } else {
                    scan.depth
                },
                ..scan
            },
        )
    } else if c == '}' {
        if scan.depth == 0 {
            None
        } else {
            Some(
                Scan { depth: (scan.depth - 1) as u32, closed: scan.closed || scan.depth == 1, ..scan },
            )
        }
    } else {
        Some(scan)
    }
}

/// Reading a text from a given state.
pub open spec fn scan_from(scan: Scan, s: Seq<char>) -> Option<Scan>
    decreases s.len(),
{
    if s.len() == 0 {
        Some(scan)
    } else {
        match scan_from(scan, s.drop_last()) {
            Some(mid) => scan_char(mid, s.last()),
            None => None,
        }
    }
}

/// Whether `s` is one object: its braces match, its quotes are closed, and nothing but white space
/// follows it.
pub open spec fn is_balanced(s: Seq<char>) -> bool {
    scan_from(scan_start(), s) == Some(
        Scan { depth: 0, quoted: false, escaped: false, closed: true },
    )
}

pub fn balanced_spa_object(properties: &str) -> (r: bool)
    ensures
        r == is_balanced(properties@),
{
    let v: Vec<char> = chars_of(properties);
    let mut depth: u32 = 0;
    let mut quoted: bool = false;
    let mut escaped: bool = false;
    let mut closed_outer: bool = false;
    let mut i: usize = 0;
    while i < v.len()
        invariant
            i <= v@.len(),
            v@ == properties@,
            scan_from(scan_start(), v@.take(i as int)) == Some(
                Scan { depth, quoted, escaped, closed: closed_outer },
            ),
        decreases v.len() - i,
    {
        let c: char = v[i];
        let ghost here = Scan { depth, quoted, escaped, closed: closed_outer };
        assert(v@.take(i + 1).drop_last() =~= v@.take(i as int));
        assert(scan_from(scan_start(), v@.take(i + 1)) == scan_char(here, c));
        if closed_outer && !is_whitespace(c) {
            proof {
                lemma_scan_rejects(scan_start(), v@, i + 1);
            }
            return false;
        }
        if escaped {
            escaped = false;
        } else if quoted && c == '\\' {
            escaped = true;
        } else if c == '"' {
            quoted = !quoted;
        } else if !quoted {
            if c == '{' {
                depth = depth.saturating_add(1);
            } else if c == '}' {
                if depth == 0 {
                    proof {
                        lemma_scan_rejects(scan_start(), v@, i + 1);
                    }
                    return false;
                }
                depth = depth - 1;
                if depth == 0 {
                    closed_outer = true;
                }
            }
        }
        i = i + 1;
    }
    assert(v@.take(i as int) =~= v@);
    closed_outer && depth == 0 && !quoted && !escaped
}

/// A text that cannot be read up to some place cannot be read whole.
proof fn lemma_scan_rejects(scan: Scan, s: Seq<char>, n: int)
    requires
        0 <= n <= s.len(),
        scan_from(scan, s.take(n)) is None,
    ensures
        scan_from(scan, s) is None,
    decreases s.len(),
{
    if n < s.len() {
        assert(s.drop_last().take(n) =~= s.take(n));
        lemma_scan_rejects(scan, s.drop_last(), n);
    } else {
        assert(s.take(n) =~= s);
    }
}

/// What stands between the outer braces of an object, if the text is one; an empty text counts as
/// an object without properties.
pub open spec fn object_body(s: Seq<char>) -> Option<Seq<char>> {
    let object = text::trim(s);
    if object.len() == 0 {
        Some(Seq::empty())
    } else if object.len() >= 2 && object[0] == '{' && object.last() == '}' && is_balanced(object) {
        Some(object.subrange(1, object.len() - 1))
    } else {
        None
    }
}

pub fn valid_pipewire_object_body(properties: &str) -> (r: Option<String>)
    ensures
        r is Some == object_body(properties@) is Some,
        r matches Some(body) ==> body@ == object_body(properties@)->0,
{
    let all: Vec<char> = chars_of(properties);
    let object: &[char] = trim_chars(all.as_slice());
    let n: usize = object.len();
    if n == 0 {
        return Some(String::new());
    }
    if n < 2 || object[0] != '{' || object[n - 1] != '}' {
        return None;
    }
    let whole: String = string_of(object);
    if balanced_spa_object(whole.as_str()) {
        Some(string_of(vstd::slice::slice_subrange(object, 1, n - 1)))
    } else {
        None
    }
}

/// The existing properties that are kept, with the blank before them.
pub open spec fn kept_properties(existing: Option<Seq<char>>) -> Seq<char> {
    match existing {
        Some(s) => match object_body(s) {
            Some(body) => if text::trim(body).len() > 0 {
                seq![' '] + text::trim(body)
            } else {
                Seq::empty()
            },
            None => Seq::empty(),
        },
        None => Seq::empty(),
    }
}

/// The properties of this application, in the order in which they are written.
pub open spec fn own_properties(app_id: Seq<char>, marker: Seq<char>, process_id: Seq<char>) -> Seq<
    char,
> {
    property(APPLICATION_NAME_PROPERTY@, APPLICATION_NAME@) + property(
        APPLICATION_ID_PROPERTY@,
        app_id,
    ) + property(APPLICATION_PROCESS_ID@, process_id) + property(STREAM_INSTANCE_PROPERTY@, marker)
}

/// The properties that stand in the environment, followed by those of this application.
pub open spec fn merged(
    existing: Option<Seq<char>>,
    app_id: Seq<char>,
    marker: Seq<char>,
    process_id: Seq<char>,
) -> Seq<char> {
    seq!['{'] + kept_properties(existing) + own_properties(app_id, marker, process_id) + seq![
        ' ',
        '}',
    ]
}

/// Adds the properties of this application to those in the environment. Existing valid entries are
/// kept; those added come last, so they take precedence over the same keys before them.
pub fn merge_pipewire_props(
    existing: Option<&str>,
    app_id: &str,
    marker: &str,
    process_id: &str,
) -> (r: String)
    ensures
        r@ == merged(
            text::optional(existing),
            app_id@,
            marker@,
            process_id@,
        ),
{
    let mut out: String = String::new();
    out.push('{');
    let body: Option<String> = match existing {
        Some(s) => valid_pipewire_object_body(s),
        None => None,
    };
    if let Some(body) = body {
        let all: Vec<char> = chars_of(body.as_str());
        let kept: &[char] = trim_chars(all.as_slice());
        if kept.len() > 0 {
            out.push(' ');
            let kept: String = string_of(kept);
            out.push_str(kept.as_str());
        }
    }
    let ghost view = text::optional(existing);
    assert(out@ =~= seq!['{'] + kept_properties(view));
    append_pipewire_property(&mut out, APPLICATION_NAME_PROPERTY, APPLICATION_NAME);
    append_pipewire_property(&mut out, APPLICATION_ID_PROPERTY, app_id);
    append_pipewire_property(&mut out, APPLICATION_PROCESS_ID, process_id);
    append_pipewire_property(&mut out, STREAM_INSTANCE_PROPERTY, marker);
    out.push(' ');
    out.push('}');
    assert(out@ =~= merged(view, app_id@, marker@, process_id@));
    out
}

/// Reading two texts one after the other is reading the second from where the first ended.
proof fn lemma_scan_concat(scan: Scan, a: Seq<char>, b: Seq<char>)
    ensures
        scan_from(scan, a + b) == match scan_from(scan, a) {
            Some(mid) => scan_from(mid, b),
            None => None,
        },
    decreases b.len(),
{
    if b.len() == 0 {
        assert(a + b =~= a);
    } else {
        lemma_scan_concat(scan, a, b.drop_last());
        assert((a + b).drop_last() =~= a + b.drop_last());
    }
}

/// An escape is open only inside a quoted value.
proof fn lemma_escape_is_quoted(scan: Scan, s: Seq<char>)
    requires
        scan.escaped ==> scan.quoted,
    ensures
        scan_from(scan, s) matches Some(end) ==> (end.escaped ==> end.quoted),
    decreases s.len(),
{
    if s.len() > 0 {
        lemma_escape_is_quoted(scan, s.drop_last());
    }
}

/// White space before an object's text changes nothing outside quotes.
proof fn lemma_scan_trim_start(scan: Scan, s: Seq<char>)
    requires
        !scan.quoted,
        !scan.escaped,
    ensures
        scan_from(scan, text::trim_start(s)) == scan_from(scan, s),
    decreases s.len(),
{
    if s.len() > 0 && text::is_space(s[0]) {
        reveal_with_fuel(scan_from, 2);
        let first = seq![s[0]];
        assert(first.drop_last() =~= Seq::<char>::empty());
        assert(scan_from(scan, first) == Some(scan));
        lemma_scan_concat(scan, first, s.drop_first());
        assert(first + s.drop_first() =~= s);
        lemma_scan_trim_start(scan, s.drop_first());
    }
}

/// White space after an object's text changes nothing, if the text ends outside quotes.
proof fn lemma_scan_trim_end(scan: Scan, s: Seq<char>)
    requires
        scan.escaped ==> scan.quoted,
        scan_from(scan, s) matches Some(end) && !end.quoted,
    ensures
        scan_from(scan, text::trim_end(s)) == scan_from(scan, s),
    decreases s.len(),
{
    if s.len() > 0 && text::is_space(s.last()) {
        lemma_escape_is_quoted(scan, s.drop_last());
        lemma_scan_trim_end(scan, s.drop_last());
    }
}

/// A value stays inside its quotes, whatever it holds.
proof fn lemma_scan_escaped(scan: Scan, value: Seq<char>)
    requires
        scan.quoted,
        !scan.escaped,
        !scan.closed,
    ensures
        scan_from(scan, escaped(value)) == Some(scan),
    decreases value.len(),
{
    if value.len() > 0 {
        lemma_scan_escaped(scan, value.drop_last());
        let tail = escaped_char(value.last());
        lemma_scan_concat(scan, escaped(value.drop_last()), tail);
        reveal_with_fuel(scan_from, 3);
        if tail.len() == 2 {
            assert(tail.drop_last() =~= seq!['\\']);
            assert(tail.drop_last().drop_last() =~= Seq::<char>::empty());
        } else {
            assert(tail.drop_last() =~= Seq::<char>::empty());
        }
    }
}

/// Whether a key is written without quotes, braces and white space.
pub open spec fn is_plain_key(key: Seq<char>) -> bool {
    forall|i: int|
        0 <= i < key.len() ==> #[trigger] key[i] != '"' && key[i] != '{' && key[i] != '}'
}

proof fn lemma_scan_plain(scan: Scan, s: Seq<char>)
    requires
        !scan.quoted,
        !scan.escaped,
        !scan.closed,
        is_plain_key(s),
    ensures
        scan_from(scan, s) == Some(scan),
    decreases s.len(),
{
    if s.len() > 0 {
        assert forall|i: int| 0 <= i < s.len() - 1 implies #[trigger] s.drop_last()[i] != '"'
            && s.drop_last()[i] != '{' && s.drop_last()[i] != '}' by {
            assert(s[i] != '"');
        }
        lemma_scan_plain(scan, s.drop_last());
        assert(s[s.len() - 1] != '"');
    }
}

/// A property leaves the braces as they are and its own quotes closed, whatever its value holds.
pub proof fn law_property_is_self_contained(scan: Scan, key: Seq<char>, value: Seq<char>)
    requires
        !scan.quoted,
        !scan.escaped,
        !scan.closed,
        is_plain_key(key),
    ensures
        scan_from(scan, property(key, value)) == Some(scan),
{
    reveal_with_fuel(scan_from, 2);
    let inside = Scan { quoted: true, ..scan };
    let blank: Seq<char> = seq![' '];
    let equals: Seq<char> = seq![' ', '=', ' '];
    let quote: Seq<char> = seq!['"'];
    let head = blank + key + equals;
    assert(is_plain_key(head));
    lemma_scan_plain(scan, head);
    assert(quote.drop_last() =~= Seq::<char>::empty());
    assert(scan_from(scan, quote) == Some(inside));
    lemma_scan_concat(scan, head, quote);
    lemma_scan_escaped(inside, value);
    lemma_scan_concat(scan, head + quote, escaped(value));
    assert(scan_from(inside, quote) == Some(scan));
    lemma_scan_concat(scan, head + quote + escaped(value), quote);
    assert(property(key, value) =~= head + quote + escaped(value) + quote);
}

/// What is between the braces of a balanced object leaves exactly that object open.
proof fn lemma_body_scan(object: Seq<char>)
    requires
        object.len() >= 2,
        object[0] == '{',
        object.last() == '}',
        is_balanced(object),
    ensures
        scan_from(
            Scan { depth: 1, quoted: false, escaped: false, closed: false },
            object.subrange(1, object.len() - 1),
        ) == Some(Scan { depth: 1, quoted: false, escaped: false, closed: false }),
{
    reveal_with_fuel(scan_from, 2);
    let open = Scan { depth: 1, quoted: false, escaped: false, closed: false };
    let brace: Seq<char> = seq!['{'];
    let body = object.subrange(1, object.len() - 1);
    assert(brace.drop_last() =~= Seq::<char>::empty());
    assert(scan_from(scan_start(), brace) == Some(open));
    lemma_scan_concat(scan_start(), brace, body);
    assert(brace + body =~= object.drop_last());
    lemma_escape_is_quoted(open, body);
}

/// The keys of this application's own properties are plain.
proof fn lemma_own_keys_are_plain()
    ensures
        is_plain_key(APPLICATION_NAME_PROPERTY@),
        is_plain_key(APPLICATION_ID_PROPERTY@),
        is_plain_key(APPLICATION_PROCESS_ID@),
        is_plain_key(STREAM_INSTANCE_PROPERTY@),
{
    reveal_strlit("application.name");
    reveal_strlit("application.id");
    reveal_strlit("application.process.id");
    reveal_strlit("listenmoe.instance.id");
}

/// Whatever stood in the environment and whatever the values hold, the merged properties are one
/// balanced object, which holds the kept entries first and the application's own last.
pub proof fn law_merged_is_an_object(
    existing: Option<Seq<char>>,
    app_id: Seq<char>,
    marker: Seq<char>,
    process_id: Seq<char>,
)
    ensures
        is_balanced(merged(existing, app_id, marker, process_id)),
        merged(existing, app_id, marker, process_id)[0] == '{',
        merged(existing, app_id, marker, process_id).last() == '}',
        object_body(merged(existing, app_id, marker, process_id)) == Some(
            kept_properties(existing) + own_properties(app_id, marker, process_id) + seq![' '],
        ),
{
    reveal_with_fuel(scan_from, 2);
    let open = Scan { depth: 1, quoted: false, escaped: false, closed: false };
    let brace: Seq<char> = seq!['{'];
    let kept = kept_properties(existing);
    assert(brace.drop_last() =~= Seq::<char>::empty());
    assert(scan_from(scan_start(), brace) == Some(open));
    assert(scan_from(open, kept) == Some(open)) by {
        if existing is Some && object_body(existing->0) is Some {
            let object = text::trim(existing->0);
            let body = object_body(existing->0)->0;
            if object.len() > 0 {
                lemma_body_scan(object);
                lemma_scan_trim_start(open, body);
                lemma_scan_trim_end(open, text::trim_start(body));
                let blank: Seq<char> = seq![' '];
                assert(blank.drop_last() =~= Seq::<char>::empty());
                lemma_scan_concat(open, blank, text::trim(body));
            } else {
                text::lemma_trim_len(body);
                text::lemma_trim_len(text::trim_start(body));
            }
        }
    }
    lemma_scan_concat(scan_start(), brace, kept);
    lemma_own_keys_are_plain();
    let p1 = property(APPLICATION_NAME_PROPERTY@, APPLICATION_NAME@);
    let p2 = property(APPLICATION_ID_PROPERTY@, app_id);
    let p3 = property(APPLICATION_PROCESS_ID@, process_id);
    let p4 = property(STREAM_INSTANCE_PROPERTY@, marker);
    law_property_is_self_contained(open, APPLICATION_NAME_PROPERTY@, APPLICATION_NAME@);
    law_property_is_self_contained(open, APPLICATION_ID_PROPERTY@, app_id);
    law_property_is_self_contained(open, APPLICATION_PROCESS_ID@, process_id);
    law_property_is_self_contained(open, STREAM_INSTANCE_PROPERTY@, marker);
    lemma_scan_concat(open, p1, p2);
    lemma_scan_concat(open, p1 + p2, p3);
    lemma_scan_concat(open, p1 + p2 + p3, p4);
    let own = own_properties(app_id, marker, process_id);
    lemma_scan_concat(scan_start(), brace + kept, own);
    let end: Seq<char> = seq![' ', '}'];
    assert(end.drop_last() =~= seq![' ']);
    assert(end.drop_last().drop_last() =~= Seq::<char>::empty());
    assert(scan_from(open, end.drop_last()) == Some(open));
    lemma_scan_concat(scan_start(), brace + kept + own, end);
    let all = merged(existing, app_id, marker, process_id);
    assert(text::trim(all) =~= all);
    assert(all.subrange(1, all.len() - 1) =~= kept + own + seq![' ']);
}

proof fn lemma_catalog_escape(s: Seq<char>, c: char)
    ensures
        catalog::escaped(s.push(c)) == catalog::escaped(s) + catalog::escaped_char(c),
    decreases s.len(),
{
    let t = s.push(c);
    if s.len() == 0 {
        reveal_with_fuel(catalog::escaped, 2);
        assert(t.drop_first() =~= Seq::<char>::empty());
        assert(catalog::escaped(t) =~= catalog::escaped_char(c));
        assert(catalog::escaped(s) + catalog::escaped_char(c) =~= catalog::escaped_char(c));
    } else {
        lemma_catalog_escape(s.drop_first(), c);
        assert(t.drop_first() =~= s.drop_first().push(c));
        assert(catalog::escaped(t) =~= catalog::escaped(s) + catalog::escaped_char(c));
    }
}

proof fn lemma_same_escapes(value: Seq<char>)
    ensures
        escaped(value) == catalog::escaped(value),
    decreases value.len(),
{
    if value.len() > 0 {
        lemma_same_escapes(value.drop_last());
        lemma_catalog_escape(value.drop_last(), value.last());
        assert(value.drop_last().push(value.last()) =~= value);
    }
}

/// A value can be read back from how it is written: the escapes are those of message catalogs.
pub proof fn law_value_reads_back(value: Seq<char>)
    ensures
        catalog::unescaped(escaped(value)) == value,
{
    lemma_same_escapes(value);
    catalog::law_escaping_is_undone(value);
}

/// A value without anything to escape is written as it is.
pub proof fn law_plain_value_is_written_as_it_is(value: Seq<char>)
    requires
        forall|i: int|
            0 <= i < value.len() ==> #[trigger] value[i] != '\\' && value[i] != '"' && value[i]
                != '\n' && value[i] != '\r' && value[i] != '\t',
    ensures
        escaped(value) == value,
    decreases value.len(),
{
    if value.len() > 0 {
        let rest = value.drop_last();
        assert forall|i: int| 0 <= i < rest.len() implies #[trigger] rest[i] != '\\' && rest[i]
            != '"' && rest[i] != '\n' && rest[i] != '\r' && rest[i] != '\t' by {
            assert(rest[i] == value[i]);
        }
        law_plain_value_is_written_as_it_is(rest);
        assert(value[value.len() - 1] != '\\');
        assert(escaped(value) =~= value);
    } else {
        assert(escaped(value) =~= value);
    }
}

/// The properties of the application are its name, its identifier, its process and its marker, each
/// under its key and written between quotes.
pub proof fn law_own_properties_stand_under_their_keys(
    app_id: Seq<char>,
    marker: Seq<char>,
    process_id: Seq<char>,
)
    ensures
        merged(None, app_id, marker, process_id) == "{ application.name = \"Listen Moe\""@
            + " application.id = \""@ + escaped(app_id) + "\""@ + " application.process.id = \""@
            + escaped(process_id) + "\""@ + " listenmoe.instance.id = \""@ + escaped(marker)
            + "\" }"@,
{
    reveal_strlit("{ application.name = \"Listen Moe\"");
    reveal_strlit(" application.id = \"");
    reveal_strlit("\"");
    reveal_strlit(" application.process.id = \"");
    reveal_strlit(" listenmoe.instance.id = \"");
    reveal_strlit("\" }");
    reveal_strlit("application.name");
    reveal_strlit("application.id");
    reveal_strlit("application.process.id");
    reveal_strlit("listenmoe.instance.id");
    reveal_strlit("Listen Moe");
    law_plain_value_is_written_as_it_is("Listen Moe"@);
    assert(seq!['{'] + property(APPLICATION_NAME_PROPERTY@, APPLICATION_NAME@)
        =~= "{ application.name = \"Listen Moe\""@);
    assert(property(APPLICATION_ID_PROPERTY@, app_id) =~= " application.id = \""@ + escaped(app_id)
        + "\""@);
    assert(property(APPLICATION_PROCESS_ID@, process_id) =~= " application.process.id = \""@
        + escaped(process_id) + "\""@);
    assert(property(STREAM_INSTANCE_PROPERTY@, marker) + seq![' ', '}']
        =~= " listenmoe.instance.id = \""@ + escaped(marker) + "\" }"@);
    assert(merged(None, app_id, marker, process_id) =~= "{ application.name = \"Listen Moe\""@ + (
    " application.id = \""@ + escaped(app_id) + "\""@) + (" application.process.id = \""@ + escaped(
        process_id,
    ) + "\""@) + (" listenmoe.instance.id = \""@ + escaped(marker) + "\" }"@));
    assert("{ application.name = \"Listen Moe\""@ + (" application.id = \""@ + escaped(app_id)
        + "\""@) + (" application.process.id = \""@ + escaped(process_id) + "\""@) + (
    " listenmoe.instance.id = \""@ + escaped(marker) + "\" }"@)
        =~= "{ application.name = \"Listen Moe\""@ + " application.id = \""@ + escaped(app_id)
        + "\""@ + " application.process.id = \""@ + escaped(process_id) + "\""@
        + " listenmoe.instance.id = \""@ + escaped(marker) + "\" }"@);
}

/// The entries of an object in the environment are kept as they are, before those of the
/// application.
pub proof fn law_existing_entries_are_kept(
    entries: Seq<char>,
    app_id: Seq<char>,
    marker: Seq<char>,
    process_id: Seq<char>,
)
    requires
        is_balanced(seq!['{'] + entries + seq!['}']),
        entries.len() > 0,
        !text::is_space(entries[0]),
        !text::is_space(entries.last()),
    ensures
        merged(Some(seq!['{'] + entries + seq!['}']), app_id, marker, process_id) == seq!['{', ' ']
            + entries + merged(None, app_id, marker, process_id).drop_first(),
{
    let object = seq!['{'] + entries + seq!['}'];
    let none = Seq::<char>::empty();
    text::law_white_space_around_is_trimmed(none, object, none);
    assert(none + object + none =~= object);
    text::law_white_space_around_is_trimmed(none, entries, none);
    assert(none + entries + none =~= entries);
    assert(object.subrange(1, object.len() - 1) =~= entries);
    assert(merged(Some(object), app_id, marker, process_id) =~= seq!['{', ' '] + entries + merged(
        None,
        app_id,
        marker,
        process_id,
    ).drop_first());
}

/// What is no object in the environment is dropped as if it were not there.
pub proof fn law_what_is_no_object_is_dropped(
    existing: Seq<char>,
    app_id: Seq<char>,
    marker: Seq<char>,
    process_id: Seq<char>,
)
    requires
        ({
            let object = text::trim(existing);
            object.len() == 0 || object[0] != '{' || object.last() != '}' || !is_balanced(object)
        }),
    ensures
        merged(Some(existing), app_id, marker, process_id) == merged(
            None,
            app_id,
            marker,
            process_id,
        ),
{
    text::lemma_trim_len(Seq::<char>::empty());
}

/// White space can follow an object, and nothing else can.
pub proof fn law_nothing_follows_an_object(s: Seq<char>, c: char)
    requires
        is_balanced(s),
    ensures
        is_balanced(s.push(c)) <==> text::is_space(c),
{
    assert(s.push(c).drop_last() =~= s);
}

/// How many braces are open behind a text: one more for each that opens, one less for each that
/// closes.
pub open spec fn open_braces(s: Seq<char>) -> int
    decreases s.len(),
{
    if s.len() == 0 {
        0
    } else {
        open_braces(s.drop_last()) + (if s.last() == '{' {
            1int
        } else if s.last() == '}' {
            -1
        } else {
            0
        })
    }
}

proof fn lemma_depth_counts(s: Seq<char>)
    requires
        !s.contains('"'),
        s.len() <= u32::MAX,
    ensures
        open_braces(s) <= s.len(),
        scan_from(scan_start(), s) matches Some(scan) ==> {
            &&& scan.depth == open_braces(s)
            &&& !scan.quoted
            &&& !scan.escaped
            &&& scan.closed ==> scan.depth == 0
            &&& forall|n: int| 0 <= n <= s.len() ==> open_braces(#[trigger] s.take(n)) >= 0
        },
    decreases s.len(),
{
    if s.len() > 0 {
        let rest = s.drop_last();
        assert forall|i: int| 0 <= i < rest.len() implies rest[i] != '"' by {
            assert(s.contains(s[i]));
        }
        assert(s.contains(s[s.len() - 1]));
        lemma_depth_counts(rest);
        if scan_from(scan_start(), s) is Some {
            assert forall|n: int| 0 <= n <= s.len() implies open_braces(#[trigger] s.take(n))
                >= 0 by {
                if n < s.len() {
                    assert(s.take(n) =~= rest.take(n));
                } else {
                    assert(s.take(n) =~= s);
                }
            }
        }
    } else {
        assert forall|n: int| 0 <= n <= s.len() implies open_braces(#[trigger] s.take(n)) >= 0 by {
            assert(s.take(n) =~= s);
        }
    }
}

/// In an object without quotes as many braces close as open, and none closes before it was opened.
pub proof fn law_braces_of_an_object_match(s: Seq<char>, n: int)
    requires
        is_balanced(s),
        !s.contains('"'),
        s.len() <= u32::MAX,
        0 <= n <= s.len(),
    ensures
        open_braces(s) == 0,
        open_braces(s.take(n)) >= 0,
{
    lemma_depth_counts(s);
}

} // verus!
