//! Text as sequences of characters: trimming, splitting and case.
use vstd::prelude::*;

verus! {

/// `String::push` appends one character at the end of the text.
pub assume_specification[ std::string::String::push ](
    s: &mut std::string::String,
    c: char,
)
    ensures
        final(s)@ == old(s)@.push(c),
;

/// `String::push_str` appends a whole text at the end of another.
pub assume_specification[ std::string::String::push_str ](
    s: &mut std::string::String,
    t: &str,
)
    ensures
        final(s)@ == old(s)@ + t@,
;

/// The characters of a text that may be missing.
pub open spec fn optional(s: Option<&str>) -> Option<Seq<char>> {
    match s {
        Some(s) => Some(s@),
        None => None,
    }
}

/// The Unicode `White_Space` property.
pub open spec fn is_space(c: char) -> bool {
    let u = c as u32;
    ||| 0x9 <= u <= 0xd
    ||| u == 0x20
    ||| u == 0x85
    ||| u == 0xa0
    ||| u == 0x1680
    ||| 0x2000 <= u <= 0x200a
    ||| u == 0x2028
    ||| u == 0x2029
    ||| u == 0x202f
    ||| u == 0x205f
    ||| u == 0x3000
}

/// Whether `c` has the Unicode `White_Space` property.
pub fn is_whitespace(c: char) -> (r: bool)
    ensures
        r == is_space(c),
{
    let u: u32 = c as u32;
    (0x9 <= u && u <= 0xd) || u == 0x20 || u == 0x85 || u == 0xa0 || u == 0x1680 || (0x2000 <= u
        && u <= 0x200a) || u == 0x2028 || u == 0x2029 || u == 0x202f || u == 0x205f || u == 0x3000
}

/// The characters of a text, in order.
pub fn chars_of(s: &str) -> (v: Vec<char>)
    ensures
        v@ == s@,
{
    let mut v: Vec<char> = Vec::new();
    for c in it: s.chars()
        invariant
            it.seq() == s@,
            v@ == it.seq().take(it.index()),
    {
        v.push(c);
    }
    v
}

/// The text made of the given characters.
pub fn string_of(v: &[char]) -> (s: String)
    ensures
        s@ == v@,
{
    let mut s: String = String::new();
    let mut i: usize = 0;
    while i < v.len()
        invariant
            i <= v@.len(),
            s@ == v@.take(i as int),
        decreases v.len() - i,
    {
        s.push(v[i]);
        i = i + 1;
    }
    s
}

/// Whether two texts hold the same characters.
pub fn same_text(a: &str, b: &str) -> (r: bool)
    ensures
        r == (a@ == b@),
{
    a.to_owned() == b.to_owned()
}

/// What is left of `s` after the white space at its start.
pub open spec fn trim_start(s: Seq<char>) -> Seq<char>
    decreases s.len(),
{
    if s.len() > 0 && is_space(s[0]) {
        trim_start(s.drop_first())
    } else {
        s
    }
}

/// What is left of `s` before the white space at its end.
pub open spec fn trim_end(s: Seq<char>) -> Seq<char>
    decreases s.len(),
{
    if s.len() > 0 && is_space(s.last()) {
        trim_end(s.drop_last())
    } else {
        s
    }
}

/// `s` without the white space at either end.
pub open spec fn trim(s: Seq<char>) -> Seq<char> {
    trim_end(trim_start(s))
}

/// The part of `v` without the white space at either end.
pub fn trim_chars(v: &[char]) -> (r: &[char])
    ensures
        r@ == trim(v@),
{
    let mut from: usize = 0;
    let mut to: usize = v.len();
    assert(v@.skip(0) == v@);
    while from < to && is_whitespace(v[from])
        invariant
            from <= to,
            to == v@.len(),
            trim_start(v@) == trim_start(v@.skip(from as int)),
        decreases to - from,
    {
        assert(v@.skip(from as int).drop_first() == v@.skip(from + 1));
        from = from + 1;
    }
    assert(trim_start(v@) == v@.skip(from as int));
    assert(v@.subrange(from as int, to as int) == v@.skip(from as int));
    while to > from && is_whitespace(v[to - 1])
        invariant
            from <= to <= v@.len(),
            trim(v@) == trim_end(v@.subrange(from as int, to as int)),
        decreases to - from,
    {
        assert(v@.subrange(from as int, to as int).drop_last() == v@.subrange(
            from as int,
            to - 1,
        ));
        to = to - 1;
    }
    vstd::slice::slice_subrange(v, from, to)
}

/// `s` without the white space at either end.
pub fn trimmed(s: &str) -> (r: String)
    ensures
        r@ == trim(s@),
{
    let v: Vec<char> = chars_of(s);
    string_of(trim_chars(v.as_slice()))
}

/// Trimming never makes a text longer.
pub proof fn lemma_trim_len(s: Seq<char>)
    ensures
        trim_start(s).len() <= s.len(),
        trim_end(s).len() <= s.len(),
    decreases s.len(),
{
    if s.len() > 0 {
        lemma_trim_len(s.drop_first());
        lemma_trim_len(s.drop_last());
    }
}

/// Whether `v` begins with `prefix`.
pub fn has_prefix(v: &[char], prefix: &str) -> (r: bool)
    ensures
        r == prefix@.is_prefix_of(v@),
{
    let p: Vec<char> = chars_of(prefix);
    if p.len() > v.len() {
        return false;
    }
    let mut i: usize = 0;
    while i < p.len()
        invariant
            i <= p@.len() <= v@.len(),
            p@ == prefix@,
            forall|j: int| 0 <= j < i ==> p@[j] == v@[j],
        decreases p.len() - i,
    {
        if p[i] != v[i] {
            assert(v@.subrange(0, p@.len() as int)[i as int] != prefix@[i as int]);
            return false;
        }
        i = i + 1;
    }
    assert(prefix@ =~= v@.subrange(0, prefix@.len() as int));
    true
}

/// An ASCII capital as its small letter; any other character as it is.
pub open spec fn lower_char(c: char) -> char {
    if 'A' <= c <= 'Z' {
        (c as u32 + 32) as char
    } else {
        c
    }
}

/// `s` with each ASCII capital as its small letter.
pub open spec fn lower(s: Seq<char>) -> Seq<char> {
    s.map_values(|c: char| lower_char(c))
}

/// The ASCII small letter for `c`.
pub fn to_lower(c: char) -> (r: char)
    ensures
        r == lower_char(c),
{
    if 'A' <= c && c <= 'Z' {
        ((c as u8) + 32) as char
    } else {
        c
    }
}

/// `v` with each ASCII capital as its small letter.
pub fn lower_chars(v: &[char]) -> (r: Vec<char>)
    ensures
        r@ == lower(v@),
{
    let mut r: Vec<char> = Vec::new();
    let mut i: usize = 0;
    while i < v.len()
        invariant
            i <= v@.len(),
            r@ == lower(v@.take(i as int)),
        decreases v.len() - i,
    {
        r.push(to_lower(v[i]));
        assert(lower(v@.take(i + 1)) =~= lower(v@.take(i as int)).push(lower_char(v@[i as int])));
        i = i + 1;
    }
    assert(v@.take(i as int) == v@);
    r
}

/// The part of `s` before the first of the given characters in it.
pub open spec fn before_any(s: Seq<char>, stops: Seq<char>) -> Seq<char>
    decreases s.len(),
{
    if s.len() == 0 || stops.contains(s[0]) {
        Seq::empty()
    } else {
        seq![s[0]] + before_any(s.drop_first(), stops)
    }
}

/// The part before the first stop is a prefix without a stop in it, and a stop follows it unless
/// it is all there is.
pub proof fn lemma_before_any(s: Seq<char>, stops: Seq<char>)
    ensures
        before_any(s, stops).len() <= s.len(),
        before_any(s, stops) == s.take(before_any(s, stops).len() as int),
        forall|i: int| 0 <= i < before_any(s, stops).len() ==> !stops.contains(#[trigger] s[i]),
        before_any(s, stops).len() < s.len() ==> stops.contains(
            s[before_any(s, stops).len() as int],
        ),
    decreases s.len(),
{
    let head = before_any(s, stops);
    if s.len() > 0 && !stops.contains(s[0]) {
        let rest = s.drop_first();
        lemma_before_any(rest, stops);
        let tail = before_any(rest, stops);
        assert(head.len() == tail.len() + 1);
        assert(head =~= s.take(head.len() as int));
        assert forall|i: int| 0 <= i < head.len() implies !stops.contains(#[trigger] s[i]) by {
            if i > 0 {
                assert(s[i] == rest[i - 1]);
            }
        }
        if head.len() < s.len() {
            assert(s[head.len() as int] == rest[tail.len() as int]);
        }
    }
}

/// A prefix without a stop in it that a stop follows, or that is all there is, is the part before
/// the first stop.
pub proof fn lemma_before_any_is(s: Seq<char>, stops: Seq<char>, n: int)
    requires
        0 <= n <= s.len(),
        forall|i: int| 0 <= i < n ==> !stops.contains(#[trigger] s[i]),
        n < s.len() ==> stops.contains(s[n]),
    ensures
        before_any(s, stops) == s.take(n),
{
    lemma_before_any(s, stops);
    let head = before_any(s, stops);
    if head.len() < n {
        assert(!stops.contains(s[head.len() as int]));
    }
    if n < head.len() {
        assert(!stops.contains(s[n]));
    }
}

/// The part of `v` before the first of the given characters in it.
pub fn chars_before<'a>(v: &'a [char], stops: &[char]) -> (r: &'a [char])
    ensures
        r@ == before_any(v@, stops@),
{
    let mut n: usize = 0;
    while n < v.len() && !contains_char(stops, v[n])
        invariant
            n <= v@.len(),
            forall|i: int| 0 <= i < n ==> !stops@.contains(#[trigger] v@[i]),
        decreases v@.len() - n,
    {
        n += 1;
    }
    proof {
        lemma_before_any_is(v@, stops@, n as int);
        assert(v@.subrange(0, n as int) =~= v@.take(n as int));
    }
    vstd::slice::slice_subrange(v, 0, n)
}

/// Whether `c` is among the given characters.
pub fn contains_char(v: &[char], c: char) -> (r: bool)
    ensures
        r == v@.contains(c),
{
    let mut i: usize = 0;
    while i < v.len()
        invariant
            i <= v@.len(),
            forall|j: int| 0 <= j < i ==> v@[j] != c,
        decreases v@.len() - i,
    {
        if v[i] == c {
            assert(v@[i as int] == c);
            return true;
        }
        i += 1;
    }
    false
}

/// The parts of `s` between the separators in it.
pub open spec fn pieces(s: Seq<char>, separator: char) -> Seq<Seq<char>>
    decreases s.len(),
{
    let head = before_any(s, seq![separator]);
    if head.len() >= s.len() {
        seq![s]
    } else {
        seq![head] + pieces(s.skip((head.len() + 1) as int), separator)
    }
}

/// The characters of each of several runs.
pub open spec fn runs(v: Seq<Vec<char>>) -> Seq<Seq<char>> {
    v.map_values(|run: Vec<char>| run@)
}

/// The parts of `v` between the separators in it.
pub fn split_chars(v: &[char], separator: char) -> (r: Vec<Vec<char>>)
    ensures
        runs(r@) == pieces(v@, separator),
{
    let stops: [char; 1] = [separator];
    let mut parts: Vec<Vec<char>> = Vec::new();
    let mut rest: &[char] = v;
    assert(stops@ =~= seq![separator]);
    assert(runs(parts@) + pieces(rest@, separator) =~= pieces(v@, separator));
    loop
        invariant
            stops@ == seq![separator],
            runs(parts@) + pieces(rest@, separator) == pieces(v@, separator),
        decreases rest@.len(),
    {
        let head = chars_before(rest, &stops);
        proof {
            lemma_before_any(rest@, stops@);
        }
        let ghost before = parts@;
        let ghost old_rest = rest@;
        parts.push(copied(head));
        assert(runs(parts@) =~= runs(before).push(head@));
        if head.len() >= rest.len() {
            assert(head@ =~= rest@);
            assert(runs(parts@) =~= pieces(v@, separator));
            return parts;
        }
        rest = vstd::slice::slice_subrange(rest, head.len() + 1, rest.len());
        assert(rest@ =~= old_rest.skip((head@.len() + 1) as int));
        assert(runs(parts@) + pieces(rest@, separator) =~= pieces(v@, separator));
    }
}

/// A copy of the given characters.
pub fn copied(v: &[char]) -> (r: Vec<char>)
    ensures
        r@ == v@,
{
    let mut r: Vec<char> = Vec::new();
    let mut i: usize = 0;
    while i < v.len()
        invariant
            i <= v@.len(),
            r@ == v@.take(i as int),
        decreases v@.len() - i,
    {
        r.push(v[i]);
        i += 1;
    }
    assert(v@.take(i as int) =~= v@);
    r
}

/// Whether the given characters make up the given text.
pub fn is_text(v: &[char], text: &str) -> (r: bool)
    ensures
        r == (v@ == text@),
{
    let whole = string_of(v);
    same_text(&whole, text)
}

/// Trimming takes away white space at either end and nothing else: what is left begins and ends with
/// something else, and all that is gone is white space.
pub proof fn law_trimming_takes_white_space_only(s: Seq<char>)
    ensures
        trim(s).len() > 0 ==> !is_space(trim(s)[0]) && !is_space(trim(s).last()),
        exists|a: int, b: int|
            0 <= a <= b <= s.len() && #[trigger] s.subrange(a, b) == trim(s) && (forall|i: int|
                0 <= i < a ==> is_space(#[trigger] s[i])) && (forall|i: int|
                b <= i < s.len() ==> is_space(#[trigger] s[i])),
{
    let n = lemma_trim_start(s);
    let t = trim_start(s);
    let m = lemma_trim_end(t);
    assert(s.subrange(n, n + m) =~= t.take(m));
    assert forall|i: int| n + m <= i < s.len() implies is_space(#[trigger] s[i]) by {
        assert(t[i - n] == s[i]);
    }
    if m > 0 {
        assert(trim(s)[0] == t[0]);
    }
}

proof fn lemma_trim_start(s: Seq<char>) -> (n: int)
    ensures
        0 <= n <= s.len(),
        trim_start(s) == s.skip(n),
        forall|i: int| 0 <= i < n ==> is_space(#[trigger] s[i]),
        n < s.len() ==> !is_space(s[n]),
    decreases s.len(),
{
    if s.len() > 0 && is_space(s[0]) {
        let rest = s.drop_first();
        let n = lemma_trim_start(rest);
        assert(rest.skip(n) =~= s.skip(n + 1));
        assert forall|i: int| 0 <= i < n + 1 implies is_space(#[trigger] s[i]) by {
            if i > 0 {
                assert(s[i] == rest[i - 1]);
            }
        }
        n + 1
    } else {
        assert(s.skip(0) =~= s);
        0
    }
}

proof fn lemma_trim_end(s: Seq<char>) -> (n: int)
    ensures
        0 <= n <= s.len(),
        trim_end(s) == s.take(n),
        forall|i: int| n <= i < s.len() ==> is_space(#[trigger] s[i]),
        n > 0 ==> !is_space(s[n - 1]),
    decreases s.len(),
{
    if s.len() > 0 && is_space(s.last()) {
        let rest = s.drop_last();
        let n = lemma_trim_end(rest);
        assert(rest.take(n) =~= s.take(n));
        assert forall|i: int| n <= i < s.len() implies is_space(#[trigger] s[i]) by {
            if i < rest.len() {
                assert(s[i] == rest[i]);
            }
        }
        n
    } else {
        assert(s.take(s.len() as int) =~= s);
        s.len() as int
    }
}

/// A text with nothing but white space around it is what is left of it.
pub proof fn law_white_space_around_is_trimmed(before: Seq<char>, s: Seq<char>, after: Seq<char>)
    requires
        forall|i: int| 0 <= i < before.len() ==> is_space(#[trigger] before[i]),
        forall|i: int| 0 <= i < after.len() ==> is_space(#[trigger] after[i]),
        s.len() > 0,
        !is_space(s[0]),
        !is_space(s.last()),
    ensures
        trim(before + s + after) == s,
{
    let whole = before + s + after;
    let n = lemma_trim_start(whole);
    let first = before.len() as int;
    assert(whole[first] == s[0]);
    if n < first {
        assert(whole[n] == before[n]);
    }
    if first < n {
        assert(is_space(whole[first]));
    }
    let t = trim_start(whole);
    assert(t =~= s + after);
    let m = lemma_trim_end(t);
    let last = s.len() as int;
    assert(t[last - 1] == s.last());
    if m < last {
        assert(is_space(t[last - 1]));
    }
    if last < m {
        assert(t[m - 1] == after[m - 1 - last]);
    }
    assert(t.take(m) =~= s);
}

/// Of the ASCII characters, blank, tab, line feed, vertical tab, form feed and carriage return are
/// white space and no others.
pub proof fn law_white_space_in_ascii(c: char)
    requires
        (c as u32) < 128,
    ensures
        is_space(c) <==> (c == ' ' || c == '\t' || c == '\n' || c == '\u{b}' || c == '\u{c}' || c
            == '\r'),
{
}

/// White space is the twenty-five characters that Unicode counts as such.
pub proof fn law_white_space_is_that_of_unicode(c: char)
    ensures
        is_space(c)
            <==> "\t\n\u{b}\u{c}\r \u{85}\u{a0}\u{1680}\u{2000}\u{2001}\u{2002}\u{2003}\u{2004}\u{2005}\u{2006}\u{2007}\u{2008}\u{2009}\u{200a}\u{2028}\u{2029}\u{202f}\u{205f}\u{3000}"@.contains(
        c),
{
    reveal_strlit(
        "\t\n\u{b}\u{c}\r \u{85}\u{a0}\u{1680}\u{2000}\u{2001}\u{2002}\u{2003}\u{2004}\u{2005}\u{2006}\u{2007}\u{2008}\u{2009}\u{200a}\u{2028}\u{2029}\u{202f}\u{205f}\u{3000}",
    );
    let all =
        "\t\n\u{b}\u{c}\r \u{85}\u{a0}\u{1680}\u{2000}\u{2001}\u{2002}\u{2003}\u{2004}\u{2005}\u{2006}\u{2007}\u{2008}\u{2009}\u{200a}\u{2028}\u{2029}\u{202f}\u{205f}\u{3000}"@;
    assert(all.len() == 25);
    let u = c as u32;
    let place = if 0x9 <= u <= 0xd {
        u - 0x9
    } else if u == 0x20 {
        5
    } else if u == 0x85 {
        6
    } else if u == 0xa0 {
        7
    } else if u == 0x1680 {
        8
    } else if 0x2000 <= u <= 0x200a {
        9 + (u - 0x2000)
    } else if u == 0x2028 {
        20
    } else if u == 0x2029 {
        21
    } else if u == 0x202f {
        22
    } else if u == 0x205f {
        23
    } else {
        24
    };
    if is_space(c) {
        assert(all[place] as u32 == u);
        assert(all[place] == c);
    }
}

/// In small letters a text is as long as it was; each capital stands at the place of its letter in
/// the alphabet, and what is no capital is left as it is.
pub proof fn law_capitals_become_small_letters(s: Seq<char>, i: int, k: int)
    requires
        0 <= i < s.len(),
        0 <= k < 26,
    ensures
        lower(s).len() == s.len(),
        s[i] == "ABCDEFGHIJKLMNOPQRSTUVWXYZ"@[k] ==> lower(s)[i] == "abcdefghijklmnopqrstuvwxyz"@[k],
        !"ABCDEFGHIJKLMNOPQRSTUVWXYZ"@.contains(s[i]) ==> lower(s)[i] == s[i],
        lower(lower(s)) == lower(s),
{
    reveal_strlit("ABCDEFGHIJKLMNOPQRSTUVWXYZ");
    reveal_strlit("abcdefghijklmnopqrstuvwxyz");
    let capitals = "ABCDEFGHIJKLMNOPQRSTUVWXYZ"@;
    assert(forall|j: int| 0 <= j < 26 ==> #[trigger] capitals[j] as u32 == 'A' as u32 + j);
    assert("abcdefghijklmnopqrstuvwxyz"@[k] as u32 == 'a' as u32 + k);
    if 'A' <= s[i] <= 'Z' {
        let j = s[i] as u32 - 'A' as u32;
        assert(capitals[j as int] == s[i]);
    }
    assert(lower(lower(s)) =~= lower(s));
}

/// The parts of a text, put together with the separator between them, are the text.
pub open spec fn joined(parts: Seq<Seq<char>>, separator: char) -> Seq<char>
    decreases parts.len(),
{
    if parts.len() == 0 {
        Seq::empty()
    } else if parts.len() == 1 {
        parts[0]
    } else {
        parts[0] + seq![separator] + joined(parts.drop_first(), separator)
    }
}

/// Splitting a text loses nothing but the separators: joined again the parts are the text, and no
/// part has a separator in it.
pub proof fn law_parts_make_up_the_text(s: Seq<char>, separator: char)
    ensures
        pieces(s, separator).len() >= 1,
        joined(pieces(s, separator), separator) == s,
        forall|i: int|
            0 <= i < pieces(s, separator).len() ==> !(#[trigger] pieces(s, separator)[i]).contains(
                separator,
            ),
    decreases s.len(),
{
    let stops = seq![separator];
    let head = before_any(s, stops);
    lemma_before_any(s, stops);
    assert forall|i: int| 0 <= i < head.len() implies #[trigger] head[i] != separator by {
        assert(head[i] == s[i]);
        if s[i] == separator {
            assert(stops[0] == s[i]);
            assert(stops.contains(s[i]));
        }
    }
    if head.len() >= s.len() {
        assert(head =~= s);
        assert(!s.contains(separator));
    } else {
        let rest = s.skip((head.len() + 1) as int);
        law_parts_make_up_the_text(rest, separator);
        let parts = pieces(s, separator);
        assert(parts.drop_first() =~= pieces(rest, separator));
        assert(s[head.len() as int] == separator);
        assert(joined(parts, separator) =~= s);
        assert forall|i: int| 0 <= i < parts.len() implies !(#[trigger] parts[i]).contains(
            separator,
        ) by {
            if i > 0 {
                assert(parts[i] == pieces(rest, separator)[i - 1]);
            }
        }
    }
}

/// A text that is there is its characters, and one that is missing stays missing.
pub proof fn law_text_is_its_characters(s: &str)
    ensures
        optional(Some(s)) == Some(s@),
        optional(None) is None,
{
}

} // verus!
