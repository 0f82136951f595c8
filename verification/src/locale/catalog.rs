//! Translations in the text form of gettext's message catalogs.
use vstd::hash_map::StringHashMap;
use vstd::prelude::*;

use crate::text;
use crate::text::{chars_of, has_prefix, split_chars, trim_chars};

verus! {

/// The character that a backslash and the given one stand for, if they stand for one.
pub open spec fn escape_target(c: char) -> Option<char> {
    if c == 'n' {
        Some('\n')
    } else if c == 'r' {
        Some('\r')
    } else if c == 't' {
        Some('\t')
    } else if c == '"' {
        Some('"')
    } else if c == '\\' {
        Some('\\')
    } else {
        None
    }
}

/// What one escape, the backslash left out, stands for. An unknown one stands for itself.
pub open spec fn escape_value(c: char) -> Seq<char> {
    match escape_target(c) {
        Some(target) => seq![target],
        None => seq!['\\', c],
    }
}

/// The text that an escaped text stands for.
pub open spec fn unescaped(s: Seq<char>) -> Seq<char>
    decreases s.len(),
{
    if s.len() == 0 {
        Seq::empty()
    } else if s[0] != '\\' {
        seq![s[0]] + unescaped(s.drop_first())
    } else if s.len() == 1 {
        seq!['\\']
    } else {
        escape_value(s[1]) + unescaped(s.skip(2))
    }
}

/// What a catalog writes for one character.
pub open spec fn escaped_char(c: char) -> Seq<char> {
    if c == '\n' {
        seq!['\\', 'n']
    } else if c == '\r' {
        seq!['\\', 'r']
    } else if c == '\t' {
        seq!['\\', 't']
    } else if c == '"' {
        seq!['\\', '"']
    } else if c == '\\' {
        seq!['\\', '\\']
    } else {
        seq![c]
    }
}

/// What a catalog writes for a text.
pub open spec fn escaped(s: Seq<char>) -> Seq<char>
    decreases s.len(),
{
    if s.len() == 0 {
        Seq::empty()
    } else {
        escaped_char(s[0]) + escaped(s.drop_first())
    }
}

/// A text that was escaped is read as what it was.
pub proof fn law_escaping_is_undone(s: Seq<char>)
    ensures
        unescaped(escaped(s)) == s,
    decreases s.len(),
{
    if s.len() > 0 {
        let rest = s.drop_first();
        law_escaping_is_undone(rest);
        let front = escaped_char(s[0]);
        let whole = front + escaped(rest);
        if front.len() == 1 {
            assert(whole.drop_first() =~= escaped(rest));
        } else {
            assert(whole.skip(2) =~= escaped(rest));
        }
        assert(unescaped(whole) =~= seq![s[0]] + rest);
        assert(seq![s[0]] + rest =~= s);
    }
}

pub fn unescape_po_string(value: &str) -> (r: String)
    ensures
        r@ == unescaped(value@),
{
    let chars = chars_of(value);
    unescape_chars(chars.as_slice())
}

fn unescape_chars(v: &[char]) -> (r: String)
    ensures
        r@ == unescaped(v@),
{
    let mut out: String = String::new();
    let mut i: usize = 0;
    assert(v@.skip(0) =~= v@);
    assert(out@ + unescaped(v@) =~= unescaped(v@));
    while i < v.len()
        invariant
            i <= v@.len(),
            out@ + unescaped(v@.skip(i as int)) == unescaped(v@),
        decreases v@.len() - i,
    {
        let ghost before = out@;
        let ghost rest = v@.skip(i as int);
        let c: char = v[i];
        if c != '\\' {
            out.push(c);
            assert(rest.drop_first() =~= v@.skip(i + 1));
            assert(out@ + unescaped(v@.skip(i + 1)) =~= before + unescaped(rest));
            i += 1;
        } else if i + 1 == v.len() {
            out.push('\\');
            assert(v@.skip(i + 1) =~= Seq::empty());
            assert(out@ + unescaped(v@.skip(i + 1)) =~= before + unescaped(rest));
            i += 1;
        } else {
            let next: char = v[i + 1];
            if next == 'n' {
                out.push('\n');
            } else if next == 'r' {
                out.push('\r');
            } else if next == 't' {
                out.push('\t');
            } else if next == '"' {
                out.push('"');
            } else if next == '\\' {
                out.push('\\');
            } else {
                out.push('\\');
                out.push(next);
            }
            assert(out@ =~= before + escape_value(next));
            assert(rest.skip(2) =~= v@.skip(i + 2));
            assert(out@ + unescaped(v@.skip(i + 2)) =~= before + unescaped(rest));
            i += 2;
        }
    }
    assert(v@.skip(i as int) =~= Seq::empty());
    assert(out@ + Seq::<char>::empty() =~= out@);
    out
}

/// Whether a text stands in quotation marks.
pub open spec fn is_quoted(s: Seq<char>) -> bool {
    s.len() >= 2 && s[0] == '"' && s.last() == '"'
}

/// The text that a string of a catalog stands for.
pub open spec fn po_string(s: Seq<char>) -> Seq<char> {
    let value = text::trim(s);
    unescaped(
        if is_quoted(value) {
            value.subrange(1, value.len() - 1)
        } else {
            value
        },
    )
}

pub fn parse_po_string(value: &str) -> (r: String)
    ensures
        r@ == po_string(value@),
{
    let chars = chars_of(value);
    parse_po_chars(chars.as_slice())
}

fn parse_po_chars(v: &[char]) -> (r: String)
    ensures
        r@ == po_string(v@),
{
    let value = trim_chars(v);
    let n: usize = value.len();
    if n >= 2 && value[0] == '"' && value[n - 1] == '"' {
        unescape_chars(vstd::slice::slice_subrange(value, 1, n - 1))
    } else {
        unescape_chars(value)
    }
}

/// Translations by the text that they are for.
pub struct Translations {
    pub entries: StringHashMap<String>,
}

impl View for Translations {
    type V = Map<Seq<char>, Seq<char>>;

    open spec fn view(&self) -> Map<Seq<char>, Seq<char>> {
        self.entries@.map_values(|value: String| value@)
    }
}

impl Translations {
    pub fn new() -> (r: Translations)
        ensures
            r@ == Map::<Seq<char>, Seq<char>>::empty(),
    {
        let r = Translations { entries: StringHashMap::new() };
        assert(r@ =~= Map::<Seq<char>, Seq<char>>::empty());
        r
    }

    pub fn insert(&mut self, message: String, translation: String)
        ensures
            final(self)@ == old(self)@.insert(message@, translation@),
    {
        let ghost before = self@;
        self.entries.insert(message, translation);
        assert(self@ =~= before.insert(message@, translation@));
    }

    pub fn get(&self, message: &str) -> (r: Option<&String>)
        ensures
            match r {
                Some(translation) => self@.contains_key(message@) && translation@
                    == self@[message@],
                None => !self@.contains_key(message@),
            },
    {
        self.entries.get(message)
    }

    pub fn contains_key(&self, message: &str) -> (r: bool)
        ensures
            r == self@.contains_key(message@),
    {
        self.entries.contains_key(message)
    }
}

/// What a message is shown as: its translation, or itself where that is missing or empty.
pub open spec fn shown(translations: Option<Map<Seq<char>, Seq<char>>>, message: Seq<char>) -> Seq<
    char,
> {
    match translations {
        Some(t) if t.contains_key(message) && t[message].len() > 0 => t[message],
        _ => message,
    }
}

pub fn translate(translations: Option<&Translations>, message: &str) -> (r: String)
    ensures
        r@ == shown(
            match translations {
                Some(t) => Some(t@),
                None => None,
            },
            message@,
        ),
{
    match translations {
        Some(t) => match t.get(message) {
            Some(translation) => if translation.as_str().is_empty() {
                message.to_owned()
            } else {
                translation.clone()
            },
            None => message.to_owned(),
        },
        None => message.to_owned(),
    }
}

/// Which string of an entry is being read.
#[derive(Debug, Clone, Copy, PartialEq, Eq, Structural)]
pub enum PoField {
    MsgId,
    MsgStr,
}

/// What has been read of a catalog: the entries, and the one that is being read.
#[verifier::ext_equal]
pub struct PoState {
    pub entries: Map<Seq<char>, Seq<char>>,
    pub msgid: Seq<char>,
    pub msgstr: Seq<char>,
    pub field: Option<PoField>,
}

impl PoState {
    /// At the start of a catalog.
    pub open spec fn start() -> PoState {
        PoState {
            entries: Map::empty(),
            msgid: Seq::empty(),
            msgstr: Seq::empty(),
            field: None,
        }
    }

    /// With the entry that was being read put to the others, if it has a text and a translation.
    pub open spec fn stored(self) -> PoState {
        PoState {
            entries: if self.msgid.len() > 0 && self.msgstr.len() > 0 {
                self.entries.insert(self.msgid, self.msgstr)
            } else {
                self.entries
            },
            msgid: Seq::empty(),
            msgstr: Seq::empty(),
            field: self.field,
        }
    }

    /// After one more line.
    pub open spec fn after_line(self, raw: Seq<char>) -> PoState {
        let line = text::trim(raw);
        if line.len() == 0 {
            PoState { field: None, ..self.stored() }
        } else if line[0] == '#' {
            self
        } else if "msgid "@.is_prefix_of(line) {
            PoState {
                msgid: po_string(line.skip(6)),
                field: Some(PoField::MsgId),
                ..self.stored()
            }
        } else if "msgstr "@.is_prefix_of(line) {
            PoState { msgstr: po_string(line.skip(7)), field: Some(PoField::MsgStr), ..self }
        } else if line[0] == '"' {
            match self.field {
                Some(PoField::MsgId) => PoState { msgid: self.msgid + po_string(line), ..self },
                Some(PoField::MsgStr) => PoState { msgstr: self.msgstr + po_string(line), ..self },
                None => self,
            }
        } else {
            self
        }
    }

    /// After several more lines.
    pub open spec fn after_lines(self, lines: Seq<Seq<char>>) -> PoState
        decreases lines.len(),
    {
        if lines.len() == 0 {
            self
        } else {
            self.after_line(lines[0]).after_lines(lines.drop_first())
        }
    }
}

/// The translations in a catalog.
pub open spec fn catalog(source: Seq<char>) -> Map<Seq<char>, Seq<char>> {
    PoState::start().after_lines(text::pieces(source, '\n')).stored().entries
}

/// The entry that is being read, and the ones before it.
struct PoReader {
    translations: Translations,
    msgid: String,
    msgstr: String,
    field: Option<PoField>,
}

impl PoReader {
    spec fn state(self) -> PoState {
        PoState {
            entries: self.translations@,
            msgid: self.msgid@,
            msgstr: self.msgstr@,
            field: self.field,
        }
    }

    /// Puts the entry that was being read to the others, if it has a text and a translation.
    fn insert_translation(&mut self)
        ensures
            final(self).state() == old(self).state().stored(),
    {
        let mut message = String::new();
        let mut translation = String::new();
        std::mem::swap(&mut message, &mut self.msgid);
        std::mem::swap(&mut translation, &mut self.msgstr);
        if !message.as_str().is_empty() && !translation.as_str().is_empty() {
            self.translations.insert(message, translation);
        }
    }

    fn read_line(&mut self, raw: &[char])
        ensures
            final(self).state() == old(self).state().after_line(raw@),
    {
        let ghost before = self.state();
        let line = trim_chars(raw);
        if line.len() == 0 {
            self.insert_translation();
            self.field = None;
            return;
        }
        if line[0] == '#' {
            return;
        }
        proof {
            reveal_strlit("msgid ");
            reveal_strlit("msgstr ");
        }
        if has_prefix(line, "msgid ") {
            self.insert_translation();
            let value = vstd::slice::slice_subrange(line, 6, line.len());
            assert(value@ =~= line@.skip(6));
            self.msgid = parse_po_chars(value);
            self.field = Some(PoField::MsgId);
            return;
        }
        if has_prefix(line, "msgstr ") {
            let value = vstd::slice::slice_subrange(line, 7, line.len());
            assert(value@ =~= line@.skip(7));
            self.msgstr = parse_po_chars(value);
            self.field = Some(PoField::MsgStr);
            return;
        }
        if line[0] == '"' {
            match self.field {
                Some(PoField::MsgId) => {
                    self.msgid.push_str(&parse_po_chars(line));
                },
                Some(PoField::MsgStr) => {
                    self.msgstr.push_str(&parse_po_chars(line));
                },
                None => {},
            }
        }
    }
}

/// The translations in a catalog.
pub fn parse_po(source: &str) -> (r: Translations)
    ensures
        r@ == catalog(source@),
{
    let chars = chars_of(source);
    let lines = split_chars(chars.as_slice(), '\n');
    let ghost all = text::runs(lines@);
    let mut reader = PoReader {
        translations: Translations::new(),
        msgid: String::new(),
        msgstr: String::new(),
        field: None,
    };
    let mut i: usize = 0;
    assert(reader.state() =~= PoState::start());
    assert(all.skip(0) =~= all);
    while i < lines.len()
        invariant
            i <= lines@.len(),
            all == text::runs(lines@),
            reader.state().after_lines(all.skip(i as int)) == PoState::start().after_lines(all),
        decreases lines@.len() - i,
    {
        assert(all.skip(i as int).drop_first() =~= all.skip(i + 1));
        reader.read_line(lines[i].as_slice());
        i += 1;
    }
    assert(all.skip(i as int) =~= Seq::empty());
    reader.insert_translation();
    reader.translations
}

/// Whether every entry has a text and a translation.
pub open spec fn has_no_empty_entry(entries: Map<Seq<char>, Seq<char>>) -> bool {
    forall|message: Seq<char>| #[trigger]
        entries.contains_key(message) ==> message.len() > 0 && entries[message].len() > 0
}

proof fn lemma_no_empty_entry(state: PoState, lines: Seq<Seq<char>>)
    requires
        has_no_empty_entry(state.entries),
    ensures
        has_no_empty_entry(state.after_lines(lines).stored().entries),
    decreases lines.len(),
{
    if lines.len() > 0 {
        lemma_no_empty_entry(state.after_line(lines[0]), lines.drop_first());
    }
}

/// A catalog gives no empty translation, and none for the empty text, which is its header.
pub proof fn law_catalog_has_no_empty_entry(source: Seq<char>)
    ensures
        has_no_empty_entry(catalog(source)),
{
    lemma_no_empty_entry(PoState::start(), text::pieces(source, '\n'));
}

/// The line of a catalog that begins with a keyword and gives a text.
pub open spec fn entry_line(keyword: Seq<char>, s: Seq<char>) -> Seq<char> {
    keyword + seq!['"'] + escaped(s) + seq!['"']
}

proof fn lemma_trim_keeps(s: Seq<char>)
    requires
        s.len() > 0,
        !text::is_space(s[0]),
        !text::is_space(s.last()),
    ensures
        text::trim(s) == s,
{
}

proof fn lemma_entry_value(s: Seq<char>)
    ensures
        po_string(seq!['"'] + escaped(s) + seq!['"']) == s,
{
    let quoted = seq!['"'] + escaped(s) + seq!['"'];
    lemma_trim_keeps(quoted);
    assert(quoted.subrange(1, quoted.len() - 1) =~= escaped(s));
    law_escaping_is_undone(s);
}

/// Two lines that give a text and its translation add just that translation.
pub proof fn law_entry_is_read(state: PoState, message: Seq<char>, translation: Seq<char>)
    requires
        message.len() > 0,
        translation.len() > 0,
    ensures
        state.after_lines(
            seq![entry_line("msgid "@, message), entry_line("msgstr "@, translation)],
        ).stored().entries == state.stored().entries.insert(message, translation),
{
    reveal_strlit("msgid ");
    reveal_strlit("msgstr ");
    let id_line = entry_line("msgid "@, message);
    let str_line = entry_line("msgstr "@, translation);
    lemma_trim_keeps(id_line);
    lemma_trim_keeps(str_line);
    assert("msgid "@ =~= id_line.subrange(0, 6));
    assert("msgstr "@ =~= str_line.subrange(0, 7));
    assert(id_line[0] == 'm');
    assert(str_line[3] == 's');
    if "msgid "@.is_prefix_of(str_line) {
        assert(str_line.subrange(0, 6)[3] == str_line[3]);
        assert("msgid "@[3] == 'i');
    }
    assert(id_line.skip(6) =~= seq!['"'] + escaped(message) + seq!['"']);
    assert(str_line.skip(7) =~= seq!['"'] + escaped(translation) + seq!['"']);
    lemma_entry_value(message);
    lemma_entry_value(translation);
    let lines = seq![id_line, str_line];
    assert(lines.drop_first() =~= seq![str_line]);
    assert(lines.drop_first().drop_first() =~= Seq::empty());
    reveal_with_fuel(PoState::after_lines, 3);
}

proof fn lemma_escaped_has_no_newline(s: Seq<char>)
    ensures
        !escaped(s).contains('\n'),
    decreases s.len(),
{
    if s.len() > 0 {
        let rest = s.drop_first();
        lemma_escaped_has_no_newline(rest);
        let front = escaped_char(s[0]);
        let whole = front + escaped(rest);
        assert forall|i: int| 0 <= i < whole.len() implies whole[i] != '\n' by {
            if i >= front.len() {
                assert(whole[i] == escaped(rest)[i - front.len()]);
            }
        }
    }
}

proof fn lemma_first_piece(line: Seq<char>, rest: Seq<char>)
    requires
        !line.contains('\n'),
    ensures
        text::pieces(line + seq!['\n'] + rest, '\n') == seq![line] + text::pieces(rest, '\n'),
{
    let whole = line + seq!['\n'] + rest;
    let stops = seq!['\n'];
    assert forall|i: int| 0 <= i < line.len() implies !stops.contains(#[trigger] whole[i]) by {
        assert(whole[i] == line[i]);
    }
    assert(whole[line.len() as int] == stops[0]);
    text::lemma_before_any_is(whole, stops, line.len() as int);
    assert(whole.take(line.len() as int) =~= line);
    assert(whole.skip((line.len() + 1) as int) =~= rest);
}

/// A catalog with one entry gives just that translation.
pub proof fn law_catalog_of_one_entry(message: Seq<char>, translation: Seq<char>)
    requires
        message.len() > 0,
        translation.len() > 0,
    ensures
        catalog(
            entry_line("msgid "@, message) + seq!['\n'] + (entry_line("msgstr "@, translation)
                + seq!['\n']),
        ) == Map::<Seq<char>, Seq<char>>::empty().insert(message, translation),
{
    reveal_strlit("msgid ");
    reveal_strlit("msgstr ");
    let id_line = entry_line("msgid "@, message);
    let str_line = entry_line("msgstr "@, translation);
    lemma_escaped_has_no_newline(message);
    lemma_escaped_has_no_newline(translation);
    assert(!id_line.contains('\n')) by {
        assert forall|i: int| 0 <= i < id_line.len() implies id_line[i] != '\n' by {
            if 7 <= i < id_line.len() - 1 {
                assert(id_line[i] == escaped(message)[i - 7]);
            }
        }
    }
    assert(!str_line.contains('\n')) by {
        assert forall|i: int| 0 <= i < str_line.len() implies str_line[i] != '\n' by {
            if 8 <= i < str_line.len() - 1 {
                assert(str_line[i] == escaped(translation)[i - 8]);
            }
        }
    }
    let none = Seq::<char>::empty();
    let tail = str_line + seq!['\n'];
    lemma_first_piece(id_line, tail);
    assert(tail =~= str_line + seq!['\n'] + none);
    lemma_first_piece(str_line, none);
    let source = id_line + seq!['\n'] + tail;
    let lines = text::pieces(source, '\n');
    assert(lines =~= seq![id_line, str_line, none]);
    let two = seq![id_line, str_line];
    let start = PoState::start();
    assert(lines.drop_first() =~= seq![str_line, none]);
    assert(lines.drop_first().drop_first() =~= seq![none]);
    assert(lines.drop_first().drop_first().drop_first() =~= Seq::empty());
    assert(two.drop_first() =~= seq![str_line]);
    assert(two.drop_first().drop_first() =~= Seq::empty());
    reveal_with_fuel(PoState::after_lines, 4);
    law_entry_is_read(start, message, translation);
    let read = start.after_lines(two);
    assert(start.after_lines(lines) == read.after_line(none));
    assert(read.after_line(none).stored().entries =~= read.stored().entries);
}

/// A backslash before anything but the five characters that it makes an escape with stays, and so
/// does one at the end.
pub proof fn law_unknown_escapes_stay(c: char, rest: Seq<char>)
    ensures
        !"nrt\"\\"@.contains(c) ==> unescaped(seq!['\\', c] + rest) == seq!['\\', c] + unescaped(
            rest,
        ),
        unescaped(seq!['\\']) == seq!['\\'],
        c != '\\' ==> unescaped(seq![c] + rest) == seq![c] + unescaped(rest),
{
    reveal_strlit("nrt\"\\");
    assert("nrt\"\\"@[0] == 'n');
    assert("nrt\"\\"@[1] == 'r');
    assert("nrt\"\\"@[2] == 't');
    assert("nrt\"\\"@[3] == '"');
    assert("nrt\"\\"@[4] == '\\');
    let two = seq!['\\', c] + rest;
    assert(two.skip(2) =~= rest);
    assert((seq![c] + rest).drop_first() =~= rest);
}

/// A line that begins with a number sign is a comment and changes nothing.
pub proof fn law_comments_change_nothing(state: PoState, before: Seq<char>, comment: Seq<char>)
    requires
        forall|i: int| 0 <= i < before.len() ==> text::is_space(#[trigger] before[i]),
    ensures
        state.after_line(before + seq!['#'] + comment) == state,
{
    let line = before + seq!['#'] + comment;
    text::law_trimming_takes_white_space_only(line);
    let (a, b) = choose|a: int, b: int|
        0 <= a <= b <= line.len() && #[trigger] line.subrange(a, b) == text::trim(line) && (forall|
            i: int,
        |
            0 <= i < a ==> text::is_space(#[trigger] line[i])) && (forall|i: int|
            b <= i < line.len() ==> text::is_space(#[trigger] line[i]));
    let n = before.len() as int;
    assert(line[n] == '#');
    assert(!text::is_space('#'));
    assert(a <= n < b);
    assert(text::trim(line)[0] == line[a]);
    if a < n {
        assert(line[a] == before[a]);
    }
}

/// A text that stands in a line of its own goes on with what the line before it gave.
pub proof fn law_long_texts_go_on(state: PoState, s: Seq<char>)
    ensures
        ({
            let line = seq!['"'] + escaped(s) + seq!['"'];
            let after = state.after_line(line);
            &&& state.field == Some(PoField::MsgId) ==> after == (PoState {
                msgid: state.msgid + s,
                ..state
            })
            &&& state.field == Some(PoField::MsgStr) ==> after == (PoState {
                msgstr: state.msgstr + s,
                ..state
            })
            &&& state.field is None ==> after == state
        }),
{
    reveal_strlit("msgid ");
    reveal_strlit("msgstr ");
    let line = seq!['"'] + escaped(s) + seq!['"'];
    lemma_trim_keeps(line);
    lemma_entry_value(s);
    if "msgid "@.is_prefix_of(line) {
        assert(line.subrange(0, 6)[0] == line[0]);
        assert("msgid "@[0] == 'm');
    }
    if "msgstr "@.is_prefix_of(line) {
        assert(line.subrange(0, 7)[0] == line[0]);
        assert("msgstr "@[0] == 'm');
    }
}

proof fn lemma_pieces_of_both(a: Seq<char>, b: Seq<char>)
    ensures
        text::pieces(a + seq!['\n'] + b, '\n') == text::pieces(a, '\n') + text::pieces(b, '\n'),
    decreases a.len(),
{
    let stops = seq!['\n'];
    let head = text::before_any(a, stops);
    text::lemma_before_any(a, stops);
    assert forall|i: int| 0 <= i < head.len() implies head[i] != '\n' by {
        assert(head[i] == a[i]);
        if a[i] == '\n' {
            assert(stops[0] == a[i]);
            assert(stops.contains(a[i]));
        }
    }
    if head.len() >= a.len() {
        assert(head =~= a);
        lemma_first_piece(a, b);
    } else {
        let rest = a.skip((head.len() + 1) as int);
        lemma_pieces_of_both(rest, b);
        let tail = rest + seq!['\n'] + b;
        assert(a[head.len() as int] == '\n');
        assert(a + seq!['\n'] + b =~= head + seq!['\n'] + tail);
        lemma_first_piece(head, tail);
        assert(seq![head] + (text::pieces(rest, '\n') + text::pieces(b, '\n')) =~= seq![head]
            + text::pieces(rest, '\n') + text::pieces(b, '\n'));
    }
}

proof fn lemma_lines_in_turn(state: PoState, a: Seq<Seq<char>>, b: Seq<Seq<char>>)
    ensures
        state.after_lines(a + b) == state.after_lines(a).after_lines(b),
    decreases a.len(),
{
    if a.len() == 0 {
        assert(a + b =~= b);
    } else {
        assert((a + b)[0] == a[0]);
        assert((a + b).drop_first() =~= a.drop_first() + b);
        lemma_lines_in_turn(state.after_line(a[0]), a.drop_first(), b);
    }
}

/// An entry behind any catalog adds its translation to that catalog's, in place of an earlier one
/// for the same text, and changes nothing else of it.
pub proof fn law_entries_add_up(source: Seq<char>, message: Seq<char>, translation: Seq<char>)
    requires
        message.len() > 0,
        translation.len() > 0,
    ensures
        catalog(
            source + seq!['\n'] + (entry_line("msgid "@, message) + seq!['\n'] + entry_line(
                "msgstr "@,
                translation,
            )),
        ) == catalog(source).insert(message, translation),
{
    reveal_strlit("msgid ");
    reveal_strlit("msgstr ");
    let id_line = entry_line("msgid "@, message);
    let str_line = entry_line("msgstr "@, translation);
    lemma_escaped_has_no_newline(message);
    lemma_escaped_has_no_newline(translation);
    assert(!id_line.contains('\n')) by {
        assert forall|i: int| 0 <= i < id_line.len() implies id_line[i] != '\n' by {
            if 7 <= i < id_line.len() - 1 {
                assert(id_line[i] == escaped(message)[i - 7]);
            }
        }
    }
    assert(!str_line.contains('\n')) by {
        assert forall|i: int| 0 <= i < str_line.len() implies str_line[i] != '\n' by {
            if 8 <= i < str_line.len() - 1 {
                assert(str_line[i] == escaped(translation)[i - 8]);
            }
        }
    }
    let entry = id_line + seq!['\n'] + str_line;
    lemma_pieces_of_both(source, entry);
    lemma_first_piece(id_line, str_line);
    assert(text::pieces(str_line, '\n') =~= seq![str_line]) by {
        let stops = seq!['\n'];
        assert forall|i: int| 0 <= i < str_line.len() implies !stops.contains(
            #[trigger] str_line[i],
        ) by {
            assert(str_line.contains(str_line[i]));
        }
        text::lemma_before_any_is(str_line, stops, str_line.len() as int);
        assert(str_line.take(str_line.len() as int) =~= str_line);
    }
    let lines = text::pieces(source, '\n');
    let two = seq![id_line, str_line];
    assert(seq![id_line] + seq![str_line] =~= two);
    lemma_lines_in_turn(PoState::start(), lines, two);
    law_entry_is_read(PoState::start().after_lines(lines), message, translation);
}

/// A message is shown as its translation where there is one that says something, and as itself
/// elsewhere.
pub proof fn law_messages_are_never_lost(
    translations: Map<Seq<char>, Seq<char>>,
    message: Seq<char>,
)
    ensures
        shown(None, message) == message,
        !translations.contains_key(message) ==> shown(Some(translations), message) == message,
        translations.contains_key(message) && translations[message].len() > 0 ==> shown(
            Some(translations),
            message,
        ) == translations[message],
        message.len() > 0 ==> shown(Some(translations), message).len() > 0,
{
}

/// A blank line ends an entry: what was read of it is kept, and a text behind the line belongs to
/// nothing.
pub proof fn law_blank_line_ends_an_entry(state: PoState, blank: Seq<char>)
    requires
        forall|i: int| 0 <= i < blank.len() ==> text::is_space(#[trigger] blank[i]),
    ensures
        ({
            let after = state.after_line(blank);
            &&& after.field is None
            &&& after.msgid.len() == 0
            &&& after.msgstr.len() == 0
            &&& state.msgid.len() > 0 && state.msgstr.len() > 0 ==> after.entries
                == state.entries.insert(state.msgid, state.msgstr)
            &&& state.msgid.len() == 0 || state.msgstr.len() == 0 ==> after.entries
                == state.entries
        }),
{
    text::law_trimming_takes_white_space_only(blank);
    let (a, b) = choose|a: int, b: int|
        0 <= a <= b <= blank.len() && #[trigger] blank.subrange(a, b) == text::trim(blank);
    if text::trim(blank).len() > 0 {
        assert(text::trim(blank)[0] == blank[a]);
    }
}

/// A string is what stands between its quotation marks, or all of it where it has none, with its
/// escapes undone and white space around it left out.
pub proof fn law_quotation_marks_are_taken_off(s: Seq<char>, before: Seq<char>, after: Seq<char>)
    requires
        forall|i: int| 0 <= i < before.len() ==> text::is_space(#[trigger] before[i]),
        forall|i: int| 0 <= i < after.len() ==> text::is_space(#[trigger] after[i]),
    ensures
        po_string(before + (seq!['"'] + s + seq!['"']) + after) == unescaped(s),
        s.len() > 0 && !text::is_space(s[0]) && !text::is_space(s.last()) && s[0] != '"'
            ==> po_string(before + s + after) == unescaped(s),
{
    let quoted = seq!['"'] + s + seq!['"'];
    text::law_white_space_around_is_trimmed(before, quoted, after);
    assert(quoted.subrange(1, quoted.len() - 1) =~= s);
    if s.len() > 0 && !text::is_space(s[0]) && !text::is_space(s.last()) {
        text::law_white_space_around_is_trimmed(before, s, after);
    }
}

} // verus!
