//! What the kanji browser and the romaji tool decide: which kanji a list
//! or a search shows, the state each tab keeps, and which tail of the
//! romaji tool's text the kanji assistant looks up.
use vstd::prelude::*;

use crate::dictionary::Kanji;
use crate::text::{
    char_is_whitespace, chars_of, contains_text, is_white_space, lowercase, occurs_in, same_text,
    str_lowercase, trim, trimmed,
};
use crate::translation::TranslationEntries;
use vstd::utf8::encode_utf8;

verus! {

/// Which kanji a list shows: all of them or one JLPT level.
#[derive(Debug, PartialEq, Eq, Clone, Copy, Structural)]
pub enum KanjiList {
    All,
    Jlpt5,
    Jlpt4,
    Jlpt3,
    Jlpt2,
    Jlpt1,
}

/// Where a tab opened from a view goes.
#[derive(Debug, PartialEq, Eq, Clone, Copy, Structural)]
pub enum TabOpenMode {
    ReplaceCurrent,
    NewTabActive,
    NewTabBackground,
}

/// A kanji of level `jlpt` belongs to the list.
pub open spec fn in_level(list: KanjiList, jlpt: Seq<char>) -> bool {
    match list {
        KanjiList::All => true,
        KanjiList::Jlpt5 => jlpt == "N5"@,
        KanjiList::Jlpt4 => jlpt == "N4"@,
        KanjiList::Jlpt3 => jlpt == "N3"@,
        KanjiList::Jlpt2 => jlpt == "N2"@,
        KanjiList::Jlpt1 => jlpt == "N1"@,
    }
}

/// Whether a kanji of level `jlpt` belongs to the list.
pub fn level_matches(list: KanjiList, jlpt: &str) -> (res: bool)
    ensures
        res == in_level(list, jlpt@),
{
    match list {
        KanjiList::All => true,
        KanjiList::Jlpt5 => same_text(jlpt, "N5"),
        KanjiList::Jlpt4 => same_text(jlpt, "N4"),
        KanjiList::Jlpt3 => same_text(jlpt, "N3"),
        KanjiList::Jlpt2 => same_text(jlpt, "N2"),
        KanjiList::Jlpt1 => same_text(jlpt, "N1"),
    }
}

/// The query occurs in the kanji itself or in one of its readings.
pub open spec fn reading_hit(k: Kanji, q: Seq<char>) -> bool {
    occurs_in(q, k.kanji@) || occurs_in(q, k.onyomi@) || occurs_in(q, k.kunyomi@) || occurs_in(
        q,
        k.onyomi_romaji@,
    ) || occurs_in(q, k.kunyomi_romaji@)
}

/// The kanji has a translation whose lowercased meaning holds the query.
pub open spec fn meaning_hit(
    k: Kanji,
    q: Seq<char>,
    translations: Map<Seq<char>, crate::translation::TranslationView>,
) -> bool {
    translations.contains_key(k.kanji@) && occurs_in(q, str_lowercase(translations[k.kanji@].0))
}

/// The kanji list shows a kanji when it is of the chosen level and either
/// the search is empty or the search (trimmed, then lowercased) occurs in
/// the kanji, a reading or its lowercased meaning.
pub open spec fn list_shows(
    k: Kanji,
    list: KanjiList,
    raw_query: Seq<char>,
    translations: Map<Seq<char>, crate::translation::TranslationView>,
) -> bool {
    let q = str_lowercase(trimmed(raw_query));
    in_level(list, k.jlpt@) && (trimmed(q).len() == 0 || reading_hit(k, q) || meaning_hit(
        k,
        q,
        translations,
    ))
}

/// The home search shows a kanji when the search is not blank and either
/// the search as typed occurs in the kanji or a reading, or the search
/// trimmed and lowercased occurs in its lowercased meaning.
pub open spec fn home_shows(
    k: Kanji,
    raw_query: Seq<char>,
    translations: Map<Seq<char>, crate::translation::TranslationView>,
) -> bool {
    trimmed(raw_query).len() != 0 && (reading_hit(k, raw_query) || meaning_hit(
        k,
        str_lowercase(trimmed(raw_query)),
        translations,
    ))
}

/// Whether `q` occurs in the kanji or one of its readings.
fn reading_matches(item: &Kanji, q: &str) -> (res: bool)
    ensures
        res == reading_hit(*item, q@),
{
    contains_text(item.kanji.as_str(), q) || contains_text(item.onyomi.as_str(), q) || contains_text(
        item.kunyomi.as_str(),
        q,
    ) || contains_text(item.onyomi_romaji.as_str(), q) || contains_text(
        item.kunyomi_romaji.as_str(),
        q,
    )
}

/// Whether `q` occurs in the lowercased meaning of the kanji's translation.
pub(crate) fn meaning_matches(item: &Kanji, q: &str, translations: &TranslationEntries) -> (res: bool)
    ensures
        res == meaning_hit(*item, q@, translations@),
{
    match translations.get(item.kanji.as_str()) {
        Some(entry) => {
            let meaning = lowercase(entry.meaning.as_str());
            contains_text(meaning.as_str(), q)
        },
        None => false,
    }
}

/// Positions `0..n` that satisfy `p`, in increasing order, exactly once each.
pub open spec fn indices_where(res: Seq<usize>, n: int, p: spec_fn(int) -> bool) -> bool {
    &&& forall|a: int, b: int| 0 <= a < b < res.len() ==> res[a] < res[b]
    &&& forall|a: int| 0 <= a < res.len() ==> res[a] < n && p(res[a] as int)
    &&& forall|k: int| 0 <= k < n && #[trigger] p(k) ==> res.contains(k as usize)
}

/// The first positions (at most `limit`) whose item satisfies `p`, in
/// increasing order.
pub open spec fn first_indices_where(res: Seq<usize>, n: int, limit: int, p: spec_fn(int) -> bool) -> bool {
    &&& res.len() <= limit
    &&& forall|a: int, b: int| 0 <= a < b < res.len() ==> res[a] < res[b]
    &&& forall|a: int| 0 <= a < res.len() ==> res[a] < n && p(res[a] as int)
    &&& forall|k: int|
        0 <= k < n && #[trigger] p(k) && (res.len() < limit || k <= res[res.len() - 1])
            ==> res.contains(k as usize)
}

/// The positions of the kanji that the kanji list shows for the chosen
/// level and search, in dictionary order.
pub fn filter_kanji_list(
    kanji: &Vec<Kanji>,
    list: KanjiList,
    search_query: &str,
    translations: &TranslationEntries,
) -> (res: Vec<usize>)
    ensures
        indices_where(
            res@,
            kanji@.len() as int,
            |k: int| list_shows(kanji@[k], list, search_query@, translations@),
        ),
{
    let trimmed_query = trim(search_query);
    let query = lowercase(trimmed_query.as_str());
    let is_search_empty = trim(query.as_str()).unicode_len() == 0;
    let ghost p = |k: int| list_shows(kanji@[k], list, search_query@, translations@);
    let mut out: Vec<usize> = Vec::new();
    let mut i: usize = 0;
    while i < kanji.len()
        invariant
            i <= kanji@.len(),
            query@ == str_lowercase(trimmed(search_query@)),
            is_search_empty == (trimmed(query@).len() == 0),
            p == (|k: int| list_shows(kanji@[k], list, search_query@, translations@)),
            forall|a: int, b: int| 0 <= a < b < out@.len() ==> out@[a] < out@[b],
            forall|a: int| 0 <= a < out@.len() ==> out@[a] < i && p(out@[a] as int),
            forall|k: int| 0 <= k < i && #[trigger] p(k) ==> out@.contains(k as usize),
        decreases kanji@.len() - i,
    {
        let item = &kanji[i];
        let shown = level_matches(list, item.jlpt.as_str()) && (is_search_empty || reading_matches(
            item,
            query.as_str(),
        ) || meaning_matches(item, query.as_str(), translations));
        if shown {
            let ghost before = out@;
            out.push(i);
            assert forall|k: int| 0 <= k < i + 1 && #[trigger] p(k) implies out@.contains(k as usize) by {
                if k < i {
                    assert(before.contains(k as usize));
                    let w = choose|w: int| 0 <= w < before.len() && before[w] == k as usize;
                    assert(out@[w] == k as usize);
                } else {
                    assert(out@[before.len() as int] == i);
                }
            }
        } else {
            assert forall|k: int| 0 <= k < i + 1 && #[trigger] p(k) implies out@.contains(k as usize) by {
            }
        }
        i = i + 1;
    }
    out
}

/// The positions of the kanji that the home search shows, in dictionary
/// order; none while the search is blank.
pub fn search_home(kanji: &Vec<Kanji>, search_query: &str, translations: &TranslationEntries) -> (res:
    Vec<usize>)
    ensures
        indices_where(
            res@,
            kanji@.len() as int,
            |k: int| home_shows(kanji@[k], search_query@, translations@),
        ),
{
    let trimmed_query = trim(search_query);
    let search_text = lowercase(trimmed_query.as_str());
    let is_search_empty = trimmed_query.unicode_len() == 0;
    let ghost p = |k: int| home_shows(kanji@[k], search_query@, translations@);
    let mut out: Vec<usize> = Vec::new();
    let mut i: usize = 0;
    while i < kanji.len()
        invariant
            i <= kanji@.len(),
            search_text@ == str_lowercase(trimmed(search_query@)),
            is_search_empty == (trimmed(search_query@).len() == 0),
            p == (|k: int| home_shows(kanji@[k], search_query@, translations@)),
            forall|a: int, b: int| 0 <= a < b < out@.len() ==> out@[a] < out@[b],
            forall|a: int| 0 <= a < out@.len() ==> out@[a] < i && p(out@[a] as int),
            forall|k: int| 0 <= k < i && #[trigger] p(k) ==> out@.contains(k as usize),
        decreases kanji@.len() - i,
    {
        let item = &kanji[i];
        let shown = !is_search_empty && (reading_matches(item, search_query) || meaning_matches(
            item,
            search_text.as_str(),
            translations,
        ));
        if shown {
            let ghost before = out@;
            out.push(i);
            assert forall|k: int| 0 <= k < i + 1 && #[trigger] p(k) implies out@.contains(k as usize) by {
                if k < i {
                    assert(before.contains(k as usize));
                    let w = choose|w: int| 0 <= w < before.len() && before[w] == k as usize;
                    assert(out@[w] == k as usize);
                } else {
                    assert(out@[before.len() as int] == i);
                }
            }
        }
        i = i + 1;
    }
    out
}

/// The kanji list tab: its search text and chosen level.
#[derive(Clone)]
pub struct KanjiListState {
    pub search_query: String,
    pub selected_list: KanjiList,
}

impl KanjiListState {
    /// No search, all kanji.
    pub fn default() -> (res: Self)
        ensures
            res.search_query@.len() == 0,
            res.selected_list == KanjiList::All,
    {
        KanjiListState { search_query: String::new(), selected_list: KanjiList::All }
    }
}

/// The translate tab: the text of its jump-to search.
#[derive(Clone)]
pub struct TranslateTabState {
    pub jump_search_buffer: String,
}

impl TranslateTabState {
    /// An empty jump-to search.
    pub fn default() -> (res: Self)
        ensures
            res.jump_search_buffer@.len() == 0,
    {
        TranslateTabState { jump_search_buffer: String::new() }
    }
}

/// The flash-card setup tab: how many cards a session takes.
#[derive(Clone)]
pub struct CardsSetupState {
    pub card_limit: usize,
}

impl CardsSetupState {
    /// Ten cards a session.
    pub fn default() -> (res: Self)
        ensures
            res.card_limit == 10,
    {
        CardsSetupState { card_limit: 10 }
    }
}

/// The romaji tool tab: the text typed and the output script.
#[derive(Clone)]
pub struct RomajiKanaState {
    pub input: String,
    pub is_katakana: bool,
}

impl RomajiKanaState {
    /// No text, hiragana output.
    pub fn default() -> (res: Self)
        ensures
            res.input@.len() == 0,
            !res.is_katakana,
    {
        RomajiKanaState { input: String::new(), is_katakana: false }
    }
}

/// Unicode's ASCII punctuation: `!` to `/`, `:` to `@`, `[` to `` ` ``
/// and `{` to `~`.
pub open spec fn is_ascii_punct(c: char) -> bool {
    ('!' <= c && c <= '/') || (':' <= c && c <= '@') || ('[' <= c && c <= '`') || ('{' <= c && c
        <= '~')
}

/// Calls `char::is_ascii_punctuation`: true exactly for `!..=/`, `:..=@`,
/// `[..=``]` and `{..=~`.
#[verifier::external_body]
fn char_is_ascii_punctuation(c: char) -> (res: bool)
    ensures
        res == is_ascii_punct(c),
{
    c.is_ascii_punctuation()
}

/// A char that ends a run of kana being typed: white space, ASCII or
/// Japanese punctuation, or a kanji of the CJK Unified Ideographs block.
pub open spec fn ends_kana_run(c: char) -> bool {
    is_white_space(c) || is_ascii_punct(c) || c == '。' || c == '、' || c == '？' || c == '！' || c
        == '・' || ('\u{4E00}' <= c && c <= '\u{9FAF}')
}

/// The char position just after the last char of `s` that ends a kana
/// run, or 0 when there is none.
pub open spec fn kana_run_start(s: Seq<char>) -> nat
    decreases s.len(),
{
    if s.len() == 0 {
        0
    } else if ends_kana_run(s.last()) {
        s.len()
    } else {
        kana_run_start(s.drop_last())
    }
}

/// The kana being typed at the end of the romaji tool's text: the text
/// after the last white space, punctuation or kanji, with its byte
/// offset. `None` when that tail is empty.
pub fn extract_trailing_kana(input: &str) -> (res: Option<(usize, &str)>)
    ensures
        kana_run_start(input@) < input@.len() ==> res is Some && res.unwrap().0 == encode_utf8(
            input@.take(kana_run_start(input@) as int),
        ).len() as usize && res.unwrap().1@ == input@.skip(kana_run_start(input@) as int),
        kana_run_start(input@) >= input@.len() ==> res is None,
{
    let chars = chars_of(input);
    let n = chars.len();
    if n == 0 {
        return None;
    }
    let mut j: usize = n;
    assert(input@.take(n as int) =~= input@);
    while j > 0 && !is_run_end(chars[j - 1])
        invariant
            chars@ == input@,
            j <= n == input@.len(),
            kana_run_start(input@) == kana_run_start(input@.take(j as int)),
        decreases j,
    {
        assert(input@.take(j as int).drop_last() =~= input@.take(j - 1));
        j = j - 1;
    }
    proof {
        if j == 0 {
            assert(input@.take(0) =~= Seq::<char>::empty());
        }
    }
    if j >= n {
        return None;
    }
    let head = input.substring_char(0, j);
    assert(head@ =~= input@.take(j as int));
    let start_byte = head.len();
    Some((start_byte, input.substring_char(j, n)))
}

/// Whether a char ends a kana run.
pub(crate) fn is_run_end(c: char) -> (res: bool)
    ensures
        res == ends_kana_run(c),
{
    char_is_whitespace(c) || char_is_ascii_punctuation(c) || c == '。' || c == '、' || c == '？'
        || c == '！' || c == '・' || (c >= '\u{4E00}' && c <= '\u{9FAF}')
}


/// The kanji list finds a kanji of the chosen level by any of its
/// readings, kana or romaji, by the kanji itself, and by its lowercased
/// meaning: wherever the search, trimmed and lowercased, occurs in one of
/// them, the kanji's position is in the list's result. Conversely every
/// position of the result is a kanji of the chosen level, and, unless the
/// search is blank, one whose kanji, reading or lowercased meaning holds
/// the search.
pub proof fn kanji_list_finds_kanji_by_any_reading(
    kanji: Seq<Kanji>,
    list: KanjiList,
    search: Seq<char>,
    translations: Map<Seq<char>, crate::translation::TranslationView>,
    res: Seq<usize>,
    k: int,
)
    requires
        indices_where(
            res,
            kanji.len() as int,
            |i: int| list_shows(kanji[i], list, search, translations),
        ),
    ensures
        ({
            let q = str_lowercase(trimmed(search));
            0 <= k < kanji.len() && in_level(list, kanji[k].jlpt@) && (occurs_in(q, kanji[k].kanji@)
                || occurs_in(q, kanji[k].onyomi@) || occurs_in(q, kanji[k].kunyomi@) || occurs_in(
                q,
                kanji[k].onyomi_romaji@,
            ) || occurs_in(q, kanji[k].kunyomi_romaji@) || (translations.contains_key(
                kanji[k].kanji@,
            ) && occurs_in(q, str_lowercase(translations[kanji[k].kanji@].0)))) ==> res.contains(
                k as usize,
            )
        }),
        forall|a: int|
            0 <= a < res.len() ==> {
                let q = str_lowercase(trimmed(search));
                let x = kanji[#[trigger] res[a] as int];
                &&& res[a] < kanji.len()
                &&& in_level(list, x.jlpt@)
                &&& trimmed(q).len() == 0 || occurs_in(q, x.kanji@) || occurs_in(q, x.onyomi@)
                    || occurs_in(q, x.kunyomi@) || occurs_in(q, x.onyomi_romaji@) || occurs_in(
                    q,
                    x.kunyomi_romaji@,
                ) || (translations.contains_key(x.kanji@) && occurs_in(
                    q,
                    str_lowercase(translations[x.kanji@].0),
                ))
            },
{
    let p = |i: int| list_shows(kanji[i], list, search, translations);
    if 0 <= k < kanji.len() {
        assert(p(k) ==> res.contains(k as usize));
    }
    assert forall|a: int| 0 <= a < res.len() implies p(#[trigger] res[a] as int) by {}
}

/// The home search finds a kanji by any of its readings, kana or romaji,
/// and by the kanji itself, matching the search as typed, and by its
/// lowercased meaning, matching the search trimmed and lowercased: when
/// the search is not blank and occurs there, the kanji's position is in
/// the result. Conversely a blank search finds nothing.
pub proof fn home_search_finds_kanji_by_any_reading(
    kanji: Seq<Kanji>,
    search: Seq<char>,
    translations: Map<Seq<char>, crate::translation::TranslationView>,
    res: Seq<usize>,
    k: int,
)
    requires
        indices_where(res, kanji.len() as int, |i: int| home_shows(kanji[i], search, translations)),
    ensures
        0 <= k < kanji.len() && trimmed(search).len() != 0 && (occurs_in(search, kanji[k].kanji@)
            || occurs_in(search, kanji[k].onyomi@) || occurs_in(search, kanji[k].kunyomi@)
            || occurs_in(search, kanji[k].onyomi_romaji@) || occurs_in(search, kanji[k].kunyomi_romaji@)
            || (translations.contains_key(kanji[k].kanji@) && occurs_in(
            str_lowercase(trimmed(search)),
            str_lowercase(translations[kanji[k].kanji@].0),
        ))) ==> res.contains(k as usize),
        trimmed(search).len() == 0 ==> res.len() == 0,
{
    let p = |i: int| home_shows(kanji[i], search, translations);
    if 0 <= k < kanji.len() {
        assert(p(k) ==> res.contains(k as usize));
    }
    if res.len() > 0 {
        assert(p(res[0] as int));
    }
}

} // verus!
