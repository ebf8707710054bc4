//! Locale selection for the web UI: picking a supported locale from a
//! locale string (an environment value such as `de_DE.UTF-8` or an
//! `Accept-Language` list), the text direction of a locale, and the list of
//! supported locales.

use vstd::prelude::*;
use crate::text::{chars_of, is_space, same_chars, trim, trim_bounds};

pub mod table;

verus! {

/// The part of `s` before the first `sep`, or all of `s` when it has none
/// (the first item of `str::split`).
pub open spec fn before(s: Seq<char>, sep: char) -> Seq<char>
    decreases s.len(),
{
    if s.len() == 0 {
        s
    } else if s[0] == sep {
        Seq::empty()
    } else {
        seq![s[0]] + before(s.drop_first(), sep)
    }
}

/// ASCII letters lowered, and `_` read as `-`.
pub open spec fn normalize_char(c: char) -> char {
    if 'A' <= c <= 'Z' {
        ((c as u32) + 32) as char
    } else if c == '_' {
        '-'
    } else {
        c
    }
}

pub open spec fn normalize(s: Seq<char>) -> Seq<char> {
    s.map_values(|c: char| normalize_char(c))
}

/// The supported locale for a language subtag.
pub open spec fn locale_for_language(lang: Seq<char>) -> Option<Seq<char>> {
    if lang == seq!['a', 'r'] {
        Some("ar"@)
    } else if lang == seq!['e', 'n'] {
        Some("en"@)
    } else if lang == seq!['d', 'e'] {
        Some("de"@)
    } else if lang == seq!['e', 's'] {
        Some("es"@)
    } else if lang == seq!['f', 'r'] {
        Some("fr"@)
    } else if lang == seq!['h', 'i'] {
        Some("hi"@)
    } else if lang == seq!['i', 'd'] {
        Some("id"@)
    } else if lang == seq!['j', 'a'] {
        Some("ja"@)
    } else if lang == seq!['k', 'o'] {
        Some("ko"@)
    } else if lang == seq!['p', 't'] {
        Some("pt-BR"@)
    } else if lang == seq!['r', 'u'] {
        Some("ru"@)
    } else if lang == seq!['t', 'r'] {
        Some("tr"@)
    } else if lang == seq!['v', 'i'] {
        Some("vi"@)
    } else if lang == seq!['z', 'h'] {
        Some("zh-Hans"@)
    } else {
        None
    }
}

/// The supported locale for one normalized candidate: the region-specific
/// forms of Portuguese and Chinese first, then by language.
pub open spec fn locale_for_tag(tag: Seq<char>) -> Option<Seq<char>> {
    if tag == seq!['p', 't', '-', 'b', 'r'] {
        Some("pt-BR"@)
    } else if tag == seq!['z', 'h', '-', 'c', 'n'] || tag == seq!['z', 'h', '-', 's', 'g'] || tag
        == seq!['z', 'h', '-', 'm', 'y'] || tag == seq!['z', 'h', '-', 'h', 'a', 'n', 's'] {
        Some("zh-Hans"@)
    } else if tag == seq!['z', 'h', '-', 't', 'w'] || tag == seq!['z', 'h', '-', 'h', 'k'] || tag
        == seq!['z', 'h', '-', 'm', 'o'] || tag == seq!['z', 'h', '-', 'h', 'a', 'n', 't'] {
        Some("zh-Hant"@)
    } else {
        locale_for_language(before(tag, '-'))
    }
}

/// The supported locale for one comma-separated candidate: its part before
/// any `;` (a quality value), trimmed and normalized.
pub open spec fn locale_for_candidate(candidate: Seq<char>) -> Option<Seq<char>> {
    locale_for_tag(normalize(trim(before(candidate, ';'))))
}

/// The locale of the first comma-separated candidate in `s` that names a
/// supported locale.
pub open spec fn chosen_locale(s: Seq<char>) -> Option<Seq<char>>
    decreases s.len(),
{
    let first = before(s, ',');
    match locale_for_candidate(first) {
        Some(l) => Some(l),
        None => if first.len() < s.len() {
            chosen_locale(s.subrange(first.len() as int + 1, s.len() as int))
        } else {
            None
        },
    }
}

pub open spec fn optional_locale_view(r: Option<&'static str>) -> Option<Seq<char>> {
    match r {
        Some(s) => Some(s@),
        None => None,
    }
}

pub(crate) proof fn lemma_before_len(s: Seq<char>, sep: char)
    ensures
        before(s, sep).len() <= s.len(),
        before(s, sep) == s.take(before(s, sep).len() as int),
        before(s, sep).len() < s.len() ==> s[before(s, sep).len() as int] == sep,
        forall|k: int| 0 <= k < before(s, sep).len() ==> s[k] != sep,
    decreases s.len(),
{
    if s.len() > 0 && s[0] != sep {
        lemma_before_len(s.drop_first(), sep);
        assert(before(s, sep) =~= s.take(before(s, sep).len() as int));
        assert forall|k: int| 0 <= k < before(s, sep).len() implies s[k] != sep by {
            if k > 0 {
                assert(s[k] == s.drop_first()[k - 1]);
            }
        }
    } else if s.len() > 0 {
        assert(before(s, sep) =~= s.take(0));
    }
}

/// `before` of the range `[start, end)` of `s` is `[start, stop)` when no
/// separator lies in `[start, stop)` and `stop` ends the range or holds one.
proof fn lemma_before_range(s: Seq<char>, sep: char, start: int, stop: int, end: int)
    requires
        0 <= start <= stop <= end <= s.len(),
        forall|k: int| start <= k < stop ==> s[k] != sep,
        stop == end || s[stop] == sep,
    ensures
        before(s.subrange(start, end), sep) == s.subrange(start, stop),
    decreases stop - start,
{
    let t = s.subrange(start, end);
    if start == stop {
        if t.len() > 0 {
            assert(t[0] == s[start]);
        }
        assert(before(t, sep) =~= s.subrange(start, stop));
    } else {
        assert(t[0] == s[start]);
        lemma_before_range(s, sep, start + 1, stop, end);
        assert(t.drop_first() =~= s.subrange(start + 1, end));
        assert(before(t, sep) =~= s.subrange(start, stop));
    }
}

/// The end of the segment of `chars` that starts at `start` and stops
/// before the next `sep`.
pub(crate) fn segment_end(chars: &Vec<char>, start: usize, end: usize, sep: char) -> (stop: usize)
    requires
        start <= end <= chars@.len(),
    ensures
        start <= stop <= end,
        before(chars@.subrange(start as int, end as int), sep) == chars@.subrange(
            start as int,
            stop as int,
        ),
{
    let mut k = start;
    while k < end && chars[k] != sep
        invariant
            start <= k <= end <= chars@.len(),
            forall|m: int| start <= m < k ==> chars@[m] != sep,
        decreases end - k,
    {
        k += 1;
    }
    proof {
        lemma_before_range(chars@, sep, start as int, k as int, end as int);
    }
    k
}

fn normalize_char_exec(c: char) -> (r: char)
    ensures
        r == normalize_char(c),
{
    if 'A' <= c && c <= 'Z' {
        let n = c as u32 + 32;
        char_from_ascii(n)
    } else if c == '_' {
        '-'
    } else {
        c
    }
}

/// The character with code `n`, for `n` below 128.
fn char_from_ascii(n: u32) -> (c: char)
    requires
        n < 128,
    ensures
        c == n as char,
{
    let b = n as u8;
    assert(b as u32 == n);
    b as char
}

/// The normalized characters `chars[start..end]`.
fn normalized(chars: &Vec<char>, start: usize, end: usize) -> (r: Vec<char>)
    requires
        start <= end <= chars@.len(),
    ensures
        r@ == normalize(chars@.subrange(start as int, end as int)),
{
    let mut r: Vec<char> = Vec::new();
    let mut k = start;
    while k < end
        invariant
            start <= k <= end <= chars@.len(),
            r@ == normalize(chars@.subrange(start as int, k as int)),
        decreases end - k,
    {
        r.push(normalize_char_exec(chars[k]));
        k += 1;
        assert(r@ =~= normalize(chars@.subrange(start as int, k as int)));
    }
    r
}

fn language_locale(lang: &[char]) -> (r: Option<&'static str>)
    ensures
        optional_locale_view(r) == locale_for_language(lang@),
{
    if same_chars(lang, &['a', 'r']) {
        Some("ar")
    } else if same_chars(lang, &['e', 'n']) {
        Some("en")
    } else if same_chars(lang, &['d', 'e']) {
        Some("de")
    } else if same_chars(lang, &['e', 's']) {
        Some("es")
    } else if same_chars(lang, &['f', 'r']) {
        Some("fr")
    } else if same_chars(lang, &['h', 'i']) {
        Some("hi")
    } else if same_chars(lang, &['i', 'd']) {
        Some("id")
    } else if same_chars(lang, &['j', 'a']) {
        Some("ja")
    } else if same_chars(lang, &['k', 'o']) {
        Some("ko")
    } else if same_chars(lang, &['p', 't']) {
        Some("pt-BR")
    } else if same_chars(lang, &['r', 'u']) {
        Some("ru")
    } else if same_chars(lang, &['t', 'r']) {
        Some("tr")
    } else if same_chars(lang, &['v', 'i']) {
        Some("vi")
    } else if same_chars(lang, &['z', 'h']) {
        Some("zh-Hans")
    } else {
        None
    }
}

fn tag_locale(tag: &Vec<char>) -> (r: Option<&'static str>)
    ensures
        optional_locale_view(r) == locale_for_tag(tag@),
{
    let t = tag.as_slice();
    if same_chars(t, &['p', 't', '-', 'b', 'r']) {
        return Some("pt-BR");
    }
    if same_chars(t, &['z', 'h', '-', 'c', 'n']) || same_chars(t, &['z', 'h', '-', 's', 'g'])
        || same_chars(t, &['z', 'h', '-', 'm', 'y']) || same_chars(
        t,
        &['z', 'h', '-', 'h', 'a', 'n', 's'],
    ) {
        return Some("zh-Hans");
    }
    if same_chars(t, &['z', 'h', '-', 't', 'w']) || same_chars(t, &['z', 'h', '-', 'h', 'k'])
        || same_chars(t, &['z', 'h', '-', 'm', 'o']) || same_chars(
        t,
        &['z', 'h', '-', 'h', 'a', 'n', 't'],
    ) {
        return Some("zh-Hant");
    }
    let stop = segment_end(tag, 0, tag.len(), '-');
    assert(tag@.subrange(0, tag@.len() as int) =~= tag@);
    language_locale(&t[0..stop])
}

/// Picks the first supported locale named in `input`, a comma-separated
/// list of locale candidates each optionally followed by `;` and extras.
pub fn choose_locale(input: &str) -> (r: Option<&'static str>)
    ensures
        optional_locale_view(r) == chosen_locale(input@),
{
    let chars = chars_of(input);
    let len = chars.len();
    let mut start: usize = 0;
    assert(chars@.subrange(0, len as int) =~= input@);
    loop
        invariant
            start <= len == chars@.len(),
            chosen_locale(input@) == chosen_locale(chars@.subrange(start as int, len as int)),
        decreases len - start,
    {
        let stop = segment_end(&chars, start, len, ',');
        let semi = segment_end(&chars, start, stop, ';');
        let (a, b) = trim_bounds(&chars, start, semi);
        let tag = normalized(&chars, a, b);
        let found = tag_locale(&tag);
        proof {
            let rest = chars@.subrange(start as int, len as int);
            let first = before(rest, ',');
            assert(first == chars@.subrange(start as int, stop as int));
            assert(before(first, ';') == chars@.subrange(start as int, semi as int)) by {
                assert(chars@.subrange(start as int, stop as int).subrange(0, (semi - start) as int)
                    =~= chars@.subrange(start as int, semi as int));
                lemma_before_len(first, ';');
                lemma_before_len(chars@.subrange(start as int, semi as int), ';');
            }
        }
        if found.is_some() {
            return found;
        }
        if stop == len {
            return None;
        }
        proof {
            let rest = chars@.subrange(start as int, len as int);
            assert(rest.subrange((stop - start) + 1, rest.len() as int) =~= chars@.subrange(
                stop + 1,
                len as int,
            ));
        }
        start = stop + 1;
    }
}

/// The text direction of a locale: right-to-left for Arabic.
pub fn direction(locale: &str) -> (r: &'static str)
    ensures
        r@ == if locale@ == "ar"@ {
            "rtl"@
        } else {
            "ltr"@
        },
{
    if String::from_str(locale) == String::from_str("ar") {
        "rtl"
    } else {
        "ltr"
    }
}

/// The text direction of a locale code.
pub open spec fn direction_of(locale: Seq<char>) -> Seq<char> {
    if locale == "ar"@ {
        "rtl"@
    } else {
        "ltr"@
    }
}

/// A supported locale as offered to the UI: its code, its name in its own
/// language, and its text direction.
#[derive(Clone, Copy, Debug)]
pub struct LocaleOption {
    pub code: &'static str,
    pub name: &'static str,
    pub dir: &'static str,
}

/// The codes of the supported locales, in the order the UI lists them.
pub open spec fn available_codes() -> Seq<Seq<char>> {
    seq![
        "en"@,
        "ar"@,
        "de"@,
        "es"@,
        "fr"@,
        "hi"@,
        "id"@,
        "ja"@,
        "ko"@,
        "pt-BR"@,
        "ru"@,
        "tr"@,
        "vi"@,
        "zh-Hans"@,
        "zh-Hant"@,
    ]
}

fn locale_option(code: &'static str, name: &'static str) -> (o: LocaleOption)
    ensures
        o.code == code,
        o.name == name,
        o.dir@ == direction_of(code@),
{
    LocaleOption { code, name, dir: direction(code) }
}

/// The supported locales, each with the direction `direction` gives it.
pub fn available_locales() -> (r: Vec<LocaleOption>)
    ensures
        r@.len() == available_codes().len(),
        forall|i: int|
            0 <= i < r@.len() ==> #[trigger] r@[i].code@ == available_codes()[i] && r@[i].dir@
                == direction_of(r@[i].code@),
{
    let mut r: Vec<LocaleOption> = Vec::new();
    r.push(locale_option("en", "English"));
    r.push(locale_option("ar", "العربية"));
    r.push(locale_option("de", "Deutsch"));
    r.push(locale_option("es", "Español"));
    r.push(locale_option("fr", "Français"));
    r.push(locale_option("hi", "हिन्दी"));
    r.push(locale_option("id", "Bahasa Indonesia"));
    r.push(locale_option("ja", "日本語"));
    r.push(locale_option("ko", "한국어"));
    r.push(locale_option("pt-BR", "Português (Brasil)"));
    r.push(locale_option("ru", "Русский"));
    r.push(locale_option("tr", "Türkçe"));
    r.push(locale_option("vi", "Tiếng Việt"));
    r.push(locale_option("zh-Hans", "简体中文"));
    r.push(locale_option("zh-Hant", "繁體中文"));
    r
}

proof fn lemma_tag_locale_available(tag: Seq<char>)
    ensures
        locale_for_tag(tag) matches Some(l) ==> available_codes().contains(l),
{
    let c = available_codes();
    assert(c[0] == "en"@ && c[1] == "ar"@ && c[2] == "de"@ && c[3] == "es"@ && c[4] == "fr"@);
    assert(c[5] == "hi"@ && c[6] == "id"@ && c[7] == "ja"@ && c[8] == "ko"@ && c[9] == "pt-BR"@);
    assert(c[10] == "ru"@ && c[11] == "tr"@ && c[12] == "vi"@ && c[13] == "zh-Hans"@);
    assert(c[14] == "zh-Hant"@);
}

/// Whatever locale string is given, the chosen locale is one the server
/// offers.
pub proof fn lemma_chosen_locale_is_available(s: Seq<char>)
    ensures
        chosen_locale(s) matches Some(l) ==> available_codes().contains(l),
    decreases s.len(),
{
    let first = before(s, ',');
    lemma_before_len(s, ',');
    lemma_tag_locale_available(normalize(trim(before(first, ';'))));
    if locale_for_candidate(first) is None && first.len() < s.len() {
        lemma_chosen_locale_is_available(s.subrange(first.len() as int + 1, s.len() as int));
    }
}

proof fn lemma_before_without_sep(s: Seq<char>, sep: char)
    requires
        forall|k: int| 0 <= k < s.len() ==> s[k] != sep,
    ensures
        before(s, sep) == s,
{
    lemma_before_len(s, sep);
    let n = before(s, sep).len();
    if n < s.len() {
        assert(s[n as int] == sep);
    }
    assert(s.take(s.len() as int) =~= s);
}

/// A locale code is chosen for itself when, written on its own, it has no
/// separator, no surrounding white space, and its normalized form names it.
proof fn lemma_code_chosen(code: Seq<char>, tag: Seq<char>)
    requires
        code.len() > 0,
        forall|k: int| 0 <= k < code.len() ==> code[k] != ',' && code[k] != ';',
        !is_space(code[0]),
        !is_space(code.last()),
        normalize(code) == tag,
        locale_for_tag(tag) == Some(code),
    ensures
        chosen_locale(code) == Some(code),
{
    lemma_before_without_sep(code, ',');
    lemma_before_without_sep(code, ';');
    assert(trim(code) == code);
}

/// A two-letter lower-case code names the locale of that language.
proof fn lemma_language_code_chosen(code: Seq<char>)
    requires
        code.len() == 2,
        'a' <= code[0] <= 'z',
        'a' <= code[1] <= 'z',
        locale_for_language(code) == Some(code),
    ensures
        chosen_locale(code) == Some(code),
{
    assert(normalize(code) =~= code);
    lemma_before_without_sep(code, '-');
    lemma_code_chosen(code, code);
}

/// Every locale the UI offers is chosen for its own code: asking for a
/// supported locale by the code `available_locales` lists gives that
/// locale.
pub proof fn lemma_offered_locales_choose_themselves()
    ensures
        forall|i: int|
            0 <= i < available_codes().len() ==> chosen_locale(#[trigger] available_codes()[i])
                == Some(available_codes()[i]),
{
    reveal_strlit("en");
    assert("en"@ =~= seq!['e', 'n']);
    lemma_language_code_chosen("en"@);
    reveal_strlit("ar");
    assert("ar"@ =~= seq!['a', 'r']);
    lemma_language_code_chosen("ar"@);
    reveal_strlit("de");
    assert("de"@ =~= seq!['d', 'e']);
    lemma_language_code_chosen("de"@);
    reveal_strlit("es");
    assert("es"@ =~= seq!['e', 's']);
    lemma_language_code_chosen("es"@);
    reveal_strlit("fr");
    assert("fr"@ =~= seq!['f', 'r']);
    lemma_language_code_chosen("fr"@);
    reveal_strlit("hi");
    assert("hi"@ =~= seq!['h', 'i']);
    lemma_language_code_chosen("hi"@);
    reveal_strlit("id");
    assert("id"@ =~= seq!['i', 'd']);
    lemma_language_code_chosen("id"@);
    reveal_strlit("ja");
    assert("ja"@ =~= seq!['j', 'a']);
    lemma_language_code_chosen("ja"@);
    reveal_strlit("ko");
    assert("ko"@ =~= seq!['k', 'o']);
    lemma_language_code_chosen("ko"@);
    reveal_strlit("pt-BR");
    assert("pt-BR"@ =~= seq!['p', 't', '-', 'B', 'R']);
    assert(normalize("pt-BR"@) =~= seq!['p', 't', '-', 'b', 'r']);
    lemma_code_chosen("pt-BR"@, seq!['p', 't', '-', 'b', 'r']);
    reveal_strlit("ru");
    assert("ru"@ =~= seq!['r', 'u']);
    lemma_language_code_chosen("ru"@);
    reveal_strlit("tr");
    assert("tr"@ =~= seq!['t', 'r']);
    lemma_language_code_chosen("tr"@);
    reveal_strlit("vi");
    assert("vi"@ =~= seq!['v', 'i']);
    lemma_language_code_chosen("vi"@);
    reveal_strlit("zh-Hans");
    assert("zh-Hans"@ =~= seq!['z', 'h', '-', 'H', 'a', 'n', 's']);
    assert(normalize("zh-Hans"@) =~= seq!['z', 'h', '-', 'h', 'a', 'n', 's']);
    lemma_code_chosen("zh-Hans"@, seq!['z', 'h', '-', 'h', 'a', 'n', 's']);
    reveal_strlit("zh-Hant");
    assert("zh-Hant"@ =~= seq!['z', 'h', '-', 'H', 'a', 'n', 't']);
    assert(normalize("zh-Hant"@) =~= seq!['z', 'h', '-', 'h', 'a', 'n', 't']);
    lemma_code_chosen("zh-Hant"@, seq!['z', 'h', '-', 'h', 'a', 'n', 't']);
    assert forall|i: int| 0 <= i < available_codes().len() implies chosen_locale(
        #[trigger] available_codes()[i],
    ) == Some(available_codes()[i]) by {
        if i == 0 {
            assert(available_codes()[i] == "en"@);
        } else if i == 1 {
            assert(available_codes()[i] == "ar"@);
        } else if i == 2 {
            assert(available_codes()[i] == "de"@);
        } else if i == 3 {
            assert(available_codes()[i] == "es"@);
        } else if i == 4 {
            assert(available_codes()[i] == "fr"@);
        } else if i == 5 {
            assert(available_codes()[i] == "hi"@);
        } else if i == 6 {
            assert(available_codes()[i] == "id"@);
        } else if i == 7 {
            assert(available_codes()[i] == "ja"@);
        } else if i == 8 {
            assert(available_codes()[i] == "ko"@);
        } else if i == 9 {
            assert(available_codes()[i] == "pt-BR"@);
        } else if i == 10 {
            assert(available_codes()[i] == "ru"@);
        } else if i == 11 {
            assert(available_codes()[i] == "tr"@);
        } else if i == 12 {
            assert(available_codes()[i] == "vi"@);
        } else if i == 13 {
            assert(available_codes()[i] == "zh-Hans"@);
        } else if i == 14 {
            assert(available_codes()[i] == "zh-Hant"@);
        }
    }
}

} // verus!
