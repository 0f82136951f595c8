//! Which language the user reads.
use vstd::prelude::*;

use crate::text;
use crate::text::{chars_before, chars_of, is_text, lower_chars, split_chars, trim_chars};

verus! {

#[derive(Debug, Clone, Copy, PartialEq, Eq, Structural)]
pub enum Language {
    English,
    German,
    Spanish,
    Japanese,
    Dutch,
}

/// The language code of a locale: what stands before encoding, modifier and territory, in small
/// letters.
pub open spec fn language_code(locale: Seq<char>) -> Seq<char> {
    let plain = text::before_any(text::before_any(text::trim(locale), seq!['.']), seq!['@']);
    text::before_any(text::lower(plain), seq!['_', '-'])
}

/// The language with the given code, if there are translations for it or it needs none.
pub open spec fn language_of_code(code: Seq<char>) -> Option<Language> {
    if code == "c"@ || code == "posix"@ || code == "en"@ {
        Some(Language::English)
    } else if code == "de"@ {
        Some(Language::German)
    } else if code == "es"@ {
        Some(Language::Spanish)
    } else if code == "ja"@ {
        Some(Language::Japanese)
    } else if code == "nl"@ {
        Some(Language::Dutch)
    } else {
        None
    }
}

/// The language that a locale asks for.
pub open spec fn language_of(locale: Seq<char>) -> Option<Language> {
    language_of_code(language_code(locale))
}

pub fn language_from_locale(locale: &str) -> (r: Option<Language>)
    ensures
        r == language_of(locale@),
{
    let chars = chars_of(locale);
    language_from_chars(chars.as_slice())
}

fn language_from_chars(chars: &[char]) -> (r: Option<Language>)
    ensures
        r == language_of(chars@),
{
    let dot: [char; 1] = ['.'];
    let at: [char; 1] = ['@'];
    let marks: [char; 2] = ['_', '-'];
    assert(dot@ =~= seq!['.']);
    assert(at@ =~= seq!['@']);
    assert(marks@ =~= seq!['_', '-']);
    let plain = chars_before(chars_before(trim_chars(chars), &dot), &at);
    let normalized = lower_chars(plain);
    let code = chars_before(normalized.as_slice(), &marks);
    if is_text(code, "c") || is_text(code, "posix") || is_text(code, "en") {
        Some(Language::English)
    } else if is_text(code, "de") {
        Some(Language::German)
    } else if is_text(code, "es") {
        Some(Language::Spanish)
    } else if is_text(code, "ja") {
        Some(Language::Japanese)
    } else if is_text(code, "nl") {
        Some(Language::Dutch)
    } else {
        None
    }
}

/// The language for a Windows language identifier, which holds it in its lowest ten bits.
pub open spec fn language_of_windows_id(lang_id: u16) -> Option<Language> {
    let primary = lang_id % 0x400;
    if primary == 0x07 {
        Some(Language::German)
    } else if primary == 0x09 {
        Some(Language::English)
    } else if primary == 0x0a {
        Some(Language::Spanish)
    } else if primary == 0x11 {
        Some(Language::Japanese)
    } else if primary == 0x13 {
        Some(Language::Dutch)
    } else {
        None
    }
}

pub fn language_from_windows_lang_id(lang_id: u16) -> (r: Option<Language>)
    ensures
        r == language_of_windows_id(lang_id),
{
    let primary: u16 = lang_id & 0x03ff;
    assert(lang_id & 0x03ff == lang_id % 0x400) by (bit_vector);
    match primary {
        0x07 => Some(Language::German),
        0x09 => Some(Language::English),
        0x0a => Some(Language::Spanish),
        0x11 => Some(Language::Japanese),
        0x13 => Some(Language::Dutch),
        _ => None,
    }
}

/// The language of the first of several locales that asks for a known one.
pub open spec fn first_language(locales: Seq<Seq<char>>) -> Option<Language>
    decreases locales.len(),
{
    if locales.len() == 0 {
        None
    } else {
        match language_of(locales[0]) {
            Some(language) => Some(language),
            None => first_language(locales.drop_first()),
        }
    }
}

/// The language that several settings ask for, each a list of locales with colons between them, or
/// missing. Earlier settings go before later ones.
pub open spec fn language_of_settings(settings: Seq<Option<String>>) -> Option<Language>
    decreases settings.len(),
{
    if settings.len() == 0 {
        None
    } else {
        let first = match settings[0] {
            Some(value) => first_language(text::pieces(value@, ':')),
            None => None,
        };
        match first {
            Some(language) => Some(language),
            None => language_of_settings(settings.drop_first()),
        }
    }
}

/// The language that the environment asks for. `settings` are the values of `LANGUAGE`, `LC_ALL`,
/// `LC_MESSAGES` and `LANG`.
pub fn detect_environment_language(settings: &[Option<String>]) -> (r: Option<Language>)
    ensures
        r == language_of_settings(settings@),
{
    let mut i: usize = 0;
    assert(settings@.skip(0) =~= settings@);
    while i < settings.len()
        invariant
            i <= settings@.len(),
            language_of_settings(settings@) == language_of_settings(settings@.skip(i as int)),
        decreases settings@.len() - i,
    {
        assert(settings@.skip(i as int).drop_first() =~= settings@.skip(i + 1));
        if let Some(value) = &settings[i] {
            if let Some(language) = first_known(value) {
                return Some(language);
            }
        }
        i += 1;
    }
    None
}

fn first_known(value: &str) -> (r: Option<Language>)
    ensures
        r == first_language(text::pieces(value@, ':')),
{
    let chars = chars_of(value);
    let locales = split_chars(chars.as_slice(), ':');
    let ghost all = text::runs(locales@);
    let mut i: usize = 0;
    assert(all.skip(0) =~= all);
    while i < locales.len()
        invariant
            i <= locales@.len(),
            all == text::runs(locales@),
            all == text::pieces(value@, ':'),
            first_language(all) == first_language(all.skip(i as int)),
        decreases locales@.len() - i,
    {
        assert(all.skip(i as int).drop_first() =~= all.skip(i + 1));
        let found = language_from_chars(locales[i].as_slice());
        assert(found == language_of(all.skip(i as int)[0]));
        if found.is_some() {
            return found;
        }
        i += 1;
    }
    None
}

/// The language to use: what the environment asks for, else what the platform does, else English.
pub fn detect_language(settings: &[Option<String>], platform: Option<Language>) -> (r: Language)
    ensures
        r == (match (language_of_settings(settings@), platform) {
            (Some(language), _) => language,
            (None, Some(language)) => language,
            (None, None) => Language::English,
        }),
{
    match detect_environment_language(settings) {
        Some(language) => language,
        None => match platform {
            Some(language) => language,
            None => Language::English,
        },
    }
}

proof fn lemma_trim_end_keeps(front: Seq<char>, back: Seq<char>)
    requires
        front.len() > 0,
        !text::is_space(front.last()),
    ensures
        front.is_prefix_of(text::trim_end(front + back)),
    decreases back.len(),
{
    let whole = front + back;
    if back.len() == 0 {
        assert(whole =~= front);
        assert(front =~= front.subrange(0, front.len() as int));
    } else if text::is_space(whole.last()) {
        assert(whole.drop_last() =~= front + back.drop_last());
        lemma_trim_end_keeps(front, back.drop_last());
    } else {
        assert(front =~= whole.subrange(0, front.len() as int));
    }
}

/// An encoding behind a locale does not change the language that it asks for.
pub proof fn law_encoding_does_not_matter(locale: Seq<char>, encoding: Seq<char>)
    requires
        text::trim(locale) == locale,
        locale.len() > 0,
    ensures
        language_of(locale + seq!['.'] + encoding) == language_of(locale),
{
    text::lemma_trim_len(locale);
    text::lemma_trim_len(text::trim_start(locale));
    if text::is_space(locale[0]) {
        text::lemma_trim_len(locale.drop_first());
        text::lemma_trim_len(text::trim_start(locale.drop_first()));
    }
    let front = locale + seq!['.'];
    let whole = front + encoding;
    assert(text::trim_start(whole) == whole);
    lemma_trim_end_keeps(front, encoding);
    let kept = text::trim_end(whole);
    assert(kept.subrange(0, front.len() as int) =~= front);
    let dot = seq!['.'];
    let head = text::before_any(locale, dot);
    text::lemma_before_any(locale, dot);
    assert forall|i: int| 0 <= i < head.len() implies !dot.contains(#[trigger] kept[i]) by {
        assert(kept[i] == front[i]);
        assert(front[i] == locale[i]);
    }
    assert(kept[head.len() as int] == front[head.len() as int]);
    assert(dot.contains(kept[head.len() as int])) by {
        if head.len() == locale.len() {
            assert(front[head.len() as int] == dot[0]);
        } else {
            assert(front[head.len() as int] == locale[head.len() as int]);
        }
    }
    text::lemma_before_any_is(kept, dot, head.len() as int);
    assert(kept.take(head.len() as int) =~= head);
}

proof fn lemma_before_any_behind(front: Seq<char>, back: Seq<char>, stops: Seq<char>)
    requires
        forall|i: int| 0 <= i < front.len() ==> !stops.contains(#[trigger] front[i]),
    ensures
        text::before_any(front + back, stops) == front + text::before_any(back, stops),
    decreases front.len(),
{
    let whole = front + back;
    if front.len() == 0 {
        assert(whole =~= back);
        assert(front + text::before_any(back, stops) =~= text::before_any(back, stops));
    } else {
        let rest = front.drop_first();
        assert forall|i: int| 0 <= i < rest.len() implies !stops.contains(#[trigger] rest[i]) by {
            assert(rest[i] == front[i + 1]);
        }
        lemma_before_any_behind(rest, back, stops);
        assert(whole[0] == front[0]);
        assert(whole.drop_first() =~= rest + back);
        assert(text::before_any(whole, stops) =~= front + text::before_any(back, stops));
    }
}

/// Whether a character is a letter of ASCII.
pub open spec fn is_letter(c: char) -> bool {
    'a' <= c <= 'z' || 'A' <= c <= 'Z'
}

/// What can stand behind the code of a language in a locale: nothing, or a mark and more.
pub open spec fn follows_a_code(rest: Seq<char>) -> bool {
    rest.len() == 0 || rest[0] == '_' || rest[0] == '-' || rest[0] == '.' || rest[0] == '@'
}

proof fn lemma_code_of(code: Seq<char>, rest: Seq<char>)
    requires
        code.len() > 0,
        forall|i: int| 0 <= i < code.len() ==> is_letter(#[trigger] code[i]),
        follows_a_code(rest),
    ensures
        language_code(code + rest) == text::lower(code),
{
    let whole = code + rest;
    assert(is_letter(code[0]));
    assert(is_letter(code[code.len() - 1]));
    assert(text::trim_start(whole) == whole);
    lemma_trim_end_keeps(code, rest);
    let kept = text::trim_end(whole);
    lemma_trim_end_is_prefix(whole);
    let r1 = kept.skip(code.len() as int);
    assert(kept.subrange(0, code.len() as int) =~= code);
    assert(kept =~= code + r1);
    assert(r1.len() > 0 ==> r1[0] == rest[0]) by {
        if r1.len() > 0 {
            assert(kept[code.len() as int] == whole[code.len() as int]);
        }
    }
    let dot = seq!['.'];
    let at = seq!['@'];
    let marks = seq!['_', '-'];
    assert forall|i: int| 0 <= i < code.len() implies !dot.contains(#[trigger] code[i])
        && !at.contains(code[i]) by {
        assert(is_letter(code[i]));
    }
    lemma_before_any_behind(code, r1, dot);
    let r2 = text::before_any(r1, dot);
    text::lemma_before_any(r1, dot);
    assert(dot.contains('.')) by {
        assert(dot[0] == '.');
    }
    lemma_before_any_behind(code, r2, at);
    let r3 = text::before_any(r2, at);
    text::lemma_before_any(r2, at);
    assert(at.contains('@')) by {
        assert(at[0] == '@');
    }
    assert(r3.len() > 0 ==> r3[0] == '_' || r3[0] == '-') by {
        if r3.len() > 0 {
            assert(r3[0] == r2[0]);
            assert(r2[0] == r1[0]);
            assert(!dot.contains(r1[0]));
            assert(!at.contains(r2[0]));
        }
    }
    let small = text::lower(code);
    let r4 = text::lower(r3);
    assert(text::lower(code + r3) =~= small + r4);
    assert forall|i: int| 0 <= i < small.len() implies !marks.contains(#[trigger] small[i]) by {
        assert(is_letter(code[i]));
    }
    lemma_before_any_behind(small, r4, marks);
    assert(marks.contains('_') && marks.contains('-')) by {
        assert(marks[0] == '_');
        assert(marks[1] == '-');
    }
    assert(text::before_any(r4, marks) =~= Seq::<char>::empty()) by {
        if r4.len() > 0 {
            assert(r4[0] == text::lower_char(r3[0]));
        }
    }
    assert(small + Seq::<char>::empty() =~= small);
}

proof fn lemma_trim_end_is_prefix(s: Seq<char>)
    ensures
        text::trim_end(s).is_prefix_of(s),
        text::trim_end(s).len() <= s.len(),
        forall|i: int| 0 <= i < text::trim_end(s).len() ==> text::trim_end(s)[i] == s[i],
    decreases s.len(),
{
    if s.len() > 0 && text::is_space(s.last()) {
        lemma_trim_end_is_prefix(s.drop_last());
        let kept = text::trim_end(s);
        assert(kept =~= s.subrange(0, kept.len() as int));
    } else {
        assert(s =~= s.subrange(0, s.len() as int));
    }
}

/// A locale asks for the language that its code stands for, whatever territory, encoding or
/// modifier follows the code.
pub proof fn law_code_decides_the_language(rest: Seq<char>)
    requires
        follows_a_code(rest),
    ensures
        language_of("C"@ + rest) == Some(Language::English),
        language_of("POSIX"@ + rest) == Some(Language::English),
        language_of("en"@ + rest) == Some(Language::English),
        language_of("de"@ + rest) == Some(Language::German),
        language_of("es"@ + rest) == Some(Language::Spanish),
        language_of("ja"@ + rest) == Some(Language::Japanese),
        language_of("nl"@ + rest) == Some(Language::Dutch),
{
    reveal_strlit("C");
    reveal_strlit("POSIX");
    reveal_strlit("c");
    reveal_strlit("posix");
    reveal_strlit("en");
    reveal_strlit("de");
    reveal_strlit("es");
    reveal_strlit("ja");
    reveal_strlit("nl");
    lemma_code_of("C"@, rest);
    lemma_code_of("POSIX"@, rest);
    lemma_code_of("en"@, rest);
    lemma_code_of("de"@, rest);
    lemma_code_of("es"@, rest);
    lemma_code_of("ja"@, rest);
    lemma_code_of("nl"@, rest);
    assert(text::lower("C"@) =~= "c"@);
    assert('P' as u32 + 32 == 'p' as u32);
    assert('O' as u32 + 32 == 'o' as u32);
    assert('S' as u32 + 32 == 's' as u32);
    assert('I' as u32 + 32 == 'i' as u32);
    assert('X' as u32 + 32 == 'x' as u32);
    assert(text::lower("POSIX"@) =~= "posix"@);
    assert(text::lower("en"@) =~= "en"@);
    assert(text::lower("de"@) =~= "de"@);
    assert(text::lower("es"@) =~= "es"@);
    assert(text::lower("ja"@) =~= "ja"@);
    assert(text::lower("nl"@) =~= "nl"@);
    assert("en"@[0] == 'e' && "en"@[1] == 'n');
    assert("de"@[0] == 'd');
    assert("es"@[0] == 'e' && "es"@[1] == 's');
    assert("ja"@[0] == 'j');
    assert("nl"@[0] == 'n');
    assert("c"@.len() == 1);
    assert("posix"@.len() == 5);
}

/// The letters of a code mean the same in either case.
pub proof fn law_case_of_a_code_does_not_matter(code: Seq<char>, rest: Seq<char>)
    requires
        code.len() > 0,
        forall|i: int| 0 <= i < code.len() ==> is_letter(#[trigger] code[i]),
        follows_a_code(rest),
    ensures
        language_of(text::lower(code) + rest) == language_of(code + rest),
{
    let small = text::lower(code);
    lemma_code_of(code, rest);
    assert forall|i: int| 0 <= i < small.len() implies is_letter(#[trigger] small[i]) by {
        assert(is_letter(code[i]));
    }
    lemma_code_of(small, rest);
    assert(text::lower(small) =~= small);
}

/// A locale whose code is none of those that are known asks for no known language.
pub proof fn law_unknown_codes_have_no_language(locale: Seq<char>)
    ensures
        language_of(locale) == Some(Language::German) ==> language_code(locale) == "de"@,
        language_of(locale) == Some(Language::Spanish) ==> language_code(locale) == "es"@,
        language_of(locale) == Some(Language::Japanese) ==> language_code(locale) == "ja"@,
        language_of(locale) == Some(Language::Dutch) ==> language_code(locale) == "nl"@,
        language_of(locale) == Some(Language::English) ==> language_code(locale) == "en"@
            || language_code(locale) == "c"@ || language_code(locale) == "posix"@,
{
}

/// The language of a Windows identifier is told by its lowest ten bits alone.
pub proof fn law_sublanguage_does_not_matter(primary: u16, sublanguage: u16)
    requires
        primary < 1024,
        sublanguage < 64,
    ensures
        language_of_windows_id((primary + 1024 * sublanguage) as u16) == language_of_windows_id(
            primary,
        ),
        primary == 7 <==> language_of_windows_id(primary) == Some(Language::German),
        primary == 9 <==> language_of_windows_id(primary) == Some(Language::English),
        primary == 10 <==> language_of_windows_id(primary) == Some(Language::Spanish),
        primary == 17 <==> language_of_windows_id(primary) == Some(Language::Japanese),
        primary == 19 <==> language_of_windows_id(primary) == Some(Language::Dutch),
{
}

/// Of several locales the first that asks for a known language decides.
pub proof fn law_first_known_language_decides(
    before: Seq<Seq<char>>,
    locale: Seq<char>,
    after: Seq<Seq<char>>,
)
    requires
        forall|i: int| 0 <= i < before.len() ==> language_of(#[trigger] before[i]) is None,
    ensures
        first_language(before) is None,
        language_of(locale) is Some ==> first_language(before + seq![locale] + after)
            == language_of(locale),
    decreases before.len(),
{
    let all = before + seq![locale] + after;
    if before.len() == 0 {
        assert(all[0] == locale);
    } else {
        let rest = before.drop_first();
        assert forall|i: int| 0 <= i < rest.len() implies language_of(
            #[trigger] rest[i],
        ) is None by {
            assert(rest[i] == before[i + 1]);
        }
        law_first_known_language_decides(rest, locale, after);
        assert(all[0] == before[0]);
        assert(all.drop_first() =~= rest + seq![locale] + after);
    }
}

/// A setting goes before those behind it; one that is missing, or asks for nothing known, leaves it
/// to them.
pub proof fn law_earlier_settings_go_first(setting: Option<String>, rest: Seq<Option<String>>)
    ensures
        language_of_settings(Seq::empty()) is None,
        setting is None ==> language_of_settings(seq![setting] + rest) == language_of_settings(rest),
        setting matches Some(value) ==> {
            let own = first_language(text::pieces(value@, ':'));
            &&& own is Some ==> language_of_settings(seq![setting] + rest) == own
            &&& own is None ==> language_of_settings(seq![setting] + rest) == language_of_settings(
                rest,
            )
        },
{
    let all = seq![setting] + rest;
    assert(all[0] == setting);
    assert(all.drop_first() =~= rest);
}

} // verus!
