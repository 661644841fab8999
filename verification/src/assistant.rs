//! The kanji assistant of the romaji tool: the kanji whose readings hold
//! the kana typed last, exact readings first and then by JLPT level from
//! N5 to N1, and the text after one of them is chosen.
use vstd::prelude::*;

use std::sync::Arc;

use crate::dictionary::Kanji;
use crate::language::{lemma_text_le_total, lemma_text_le_trans, text_le, text_le_str};
use crate::text::{
    chars_of, contains_text, occurs_in, push_char, same_text, string_from_chars, trim, trimmed,
};

verus! {

/// A char is a Unicode scalar value.
pub open spec fn is_scalar(u: u32) -> bool {
    u <= 0xD7FF || (0xE000 <= u && u <= 0x10FFFF)
}

/// Calls `char::from_u32`: the char with the given code point, or `None`
/// when the number is not a Unicode scalar value.
#[verifier::external_body]
fn char_from_u32(u: u32) -> (res: Option<char>)
    ensures
        is_scalar(u) ==> res == Some(u as char),
        !is_scalar(u) ==> res is None,
{
    char::from_u32(u)
}

/// A katakana letter (U+30A1..=U+30F6) becomes the hiragana letter 0x60
/// code points below it; any other char stays.
pub open spec fn hira_char(c: char) -> char {
    if 0x30A1 <= (c as u32) && (c as u32) <= 0x30F6 {
        ((c as u32) - 0x60) as char
    } else {
        c
    }
}

/// A hiragana letter (U+3041..=U+3096) becomes the katakana letter 0x60
/// code points above it; any other char stays.
pub open spec fn kata_char(c: char) -> char {
    if 0x3041 <= (c as u32) && (c as u32) <= 0x3096 {
        ((c as u32) + 0x60) as char
    } else {
        c
    }
}

/// The text with its katakana turned into hiragana.
pub open spec fn as_hiragana(s: Seq<char>) -> Seq<char> {
    s.map_values(|c: char| hira_char(c))
}

/// The text with its hiragana turned into katakana.
pub open spec fn as_katakana(s: Seq<char>) -> Seq<char> {
    s.map_values(|c: char| kata_char(c))
}

/// The text with its kana shifted up (`to_katakana`) or down.
fn shift_kana(s: &Vec<char>, to_katakana: bool) -> (res: Vec<char>)
    ensures
        to_katakana ==> res@ == as_katakana(s@),
        !to_katakana ==> res@ == as_hiragana(s@),
{
    let mut out: Vec<char> = Vec::new();
    let mut i: usize = 0;
    while i < s.len()
        invariant
            i <= s@.len(),
            to_katakana ==> out@ == as_katakana(s@.subrange(0, i as int)),
            !to_katakana ==> out@ == as_hiragana(s@.subrange(0, i as int)),
        decreases s@.len() - i,
    {
        let c = s[i];
        let u = c as u32;
        let mut d = c;
        if to_katakana && 0x3041 <= u && u <= 0x3096 {
            if let Some(x) = char_from_u32(u + 0x60) {
                d = x;
            }
        } else if !to_katakana && 0x30A1 <= u && u <= 0x30F6 {
            if let Some(x) = char_from_u32(u - 0x60) {
                d = x;
            }
        }
        out.push(d);
        assert(as_katakana(s@.subrange(0, i + 1)) =~= as_katakana(s@.subrange(0, i as int)).push(
            kata_char(c),
        ));
        assert(as_hiragana(s@.subrange(0, i + 1)) =~= as_hiragana(s@.subrange(0, i as int)).push(
            hira_char(c),
        ));
        i = i + 1;
    }
    assert(s@.subrange(0, i as int) =~= s@);
    out
}


/// A char that the reading columns use as a mark inside a reading.
pub open spec fn is_mark(c: char) -> bool {
    c == '.' || c == '-'
}

/// The text without its `.` and `-` marks.
pub open spec fn without_marks(s: Seq<char>) -> Seq<char> {
    s.filter(|c: char| !is_mark(c))
}

/// The text without its `.` and `-` marks.
fn strip_marks(s: &str) -> (res: String)
    ensures
        res@ == without_marks(s@),
{
    let chars = chars_of(s);
    let mut out = String::new();
    let mut i: usize = 0;
    assert(s@.subrange(0, 0).filter(|c: char| !is_mark(c)) =~= Seq::<char>::empty()) by {
        reveal_with_fuel(Seq::filter, 1);
    }
    while i < chars.len()
        invariant
            chars@ == s@,
            i <= chars@.len(),
            out@ == without_marks(s@.subrange(0, i as int)),
        decreases chars@.len() - i,
    {
        let c = chars[i];
        let ghost prev = s@.subrange(0, i as int);
        assert(s@.subrange(0, i + 1) =~= prev.push(c));
        proof {
            prev.lemma_filter_push(c, |c: char| !is_mark(c));
        }
        if c != '.' && c != '-' {
            push_char(&mut out, c);
        }
        i = i + 1;
    }
    assert(s@.subrange(0, i as int) =~= s@);
    out
}

/// The pieces of `s` between the separators, as `str::split` gives them:
/// one more piece than there are separators, empty pieces included.
pub open spec fn pieces(s: Seq<char>, sep: char) -> Seq<Seq<char>>
    decreases s.len(),
{
    if s.len() == 0 {
        seq![Seq::<char>::empty()]
    } else {
        let p = pieces(s.drop_last(), sep);
        if s.last() == sep {
            p.push(Seq::<char>::empty())
        } else {
            p.update(p.len() - 1, p.last().push(s.last()))
        }
    }
}

proof fn lemma_pieces_nonempty(s: Seq<char>, sep: char)
    ensures
        pieces(s, sep).len() > 0,
    decreases s.len(),
{
    if s.len() > 0 {
        lemma_pieces_nonempty(s.drop_last(), sep);
    }
}

/// One of the readings of a column (separated by `、`), trimmed, is `r`.
pub open spec fn has_reading(column: Seq<char>, r: Seq<char>) -> bool {
    exists|i: int| 0 <= i < pieces(column, '、').len() && trimmed(#[trigger] pieces(column, '、')[i]) == r
}

/// Whether a piece of text, trimmed, is `r`.
fn trimmed_is(piece: &Vec<char>, r: &str) -> (res: bool)
    ensures
        res == (trimmed(piece@) == r@),
{
    let text = string_from_chars(piece, 0, piece.len());
    assert(piece@.subrange(0, piece@.len() as int) =~= piece@);
    let t = trim(text.as_str());
    same_text(t.as_str(), r)
}

/// Whether one of the readings of a column is `r`.
fn reading_in(column: &str, r: &str) -> (res: bool)
    ensures
        res == has_reading(column@, r@),
{
    let chars = chars_of(column);
    let mut cur: Vec<char> = Vec::new();
    let mut found = false;
    let mut i: usize = 0;
    while i < chars.len()
        invariant
            chars@ == column@,
            i <= chars@.len(),
            pieces(column@.subrange(0, i as int), '、').len() > 0,
            cur@ == pieces(column@.subrange(0, i as int), '、').last(),
            found == exists|k: int|
                0 <= k < pieces(column@.subrange(0, i as int), '、').len() - 1 && trimmed(
                    #[trigger] pieces(column@.subrange(0, i as int), '、')[k],
                ) == r@,
        decreases chars@.len() - i,
    {
        let c = chars[i];
        let ghost prev = column@.subrange(0, i as int);
        let ghost pp = pieces(prev, '、');
        assert(column@.subrange(0, i + 1).drop_last() =~= prev);
        let ghost np = pieces(column@.subrange(0, i + 1), '、');
        if c == '、' {
            let hit = trimmed_is(&cur, r);
            proof {
                assert(np == pp.push(Seq::<char>::empty()));
                if hit {
                    assert(trimmed(np[pp.len() - 1]) == r@);
                }
                if found {
                    let k = choose|k: int| 0 <= k < pp.len() - 1 && trimmed(#[trigger] pp[k]) == r@;
                    assert(np[k] == pp[k]);
                }
                if exists|k: int| 0 <= k < np.len() - 1 && trimmed(#[trigger] np[k]) == r@ {
                    let k = choose|k: int| 0 <= k < np.len() - 1 && trimmed(#[trigger] np[k]) == r@;
                    if k < pp.len() - 1 {
                        assert(np[k] == pp[k]);
                    }
                }
            }
            found = found || hit;
            cur = Vec::new();
        } else {
            cur.push(c);
            proof {
                assert(np == pp.update(pp.len() - 1, pp.last().push(c)));
                if found {
                    let k = choose|k: int| 0 <= k < pp.len() - 1 && trimmed(#[trigger] pp[k]) == r@;
                    assert(np[k] == pp[k]);
                }
                if exists|k: int| 0 <= k < np.len() - 1 && trimmed(#[trigger] np[k]) == r@ {
                    let k = choose|k: int| 0 <= k < np.len() - 1 && trimmed(#[trigger] np[k]) == r@;
                    assert(np[k] == pp[k]);
                }
            }
        }
        i = i + 1;
    }
    assert(column@.subrange(0, i as int) =~= column@);
    let last = trimmed_is(&cur, r);
    proof {
        let p = pieces(column@, '、');
        if last {
            assert(trimmed(p[p.len() - 1]) == r@);
        }
        if has_reading(column@, r@) {
            let k = choose|k: int| 0 <= k < p.len() && trimmed(#[trigger] p[k]) == r@;
            if k < p.len() - 1 {
            } else {
                assert(last);
            }
        }
    }
    found || last
}


/// How many kanji the assistant suggests at most.
pub const ASSIST_RESULTS: usize = 30;

/// The assistant suggests a kanji when the typed kana, as hiragana, occur
/// in its kun readings, or, as katakana, in its on readings (the `.` and
/// `-` marks of the readings left out).
pub open spec fn suggests(k: Kanji, hira: Seq<char>, kata: Seq<char>) -> bool {
    occurs_in(hira, without_marks(k.kunyomi@)) || occurs_in(kata, without_marks(k.onyomi@))
}

/// The typed kana are one of the kanji's readings exactly.
pub open spec fn exact_reading(k: Kanji, hira: Seq<char>, kata: Seq<char>) -> bool {
    has_reading(without_marks(k.kunyomi@), hira) || has_reading(without_marks(k.onyomi@), kata)
}

/// The JLPT level text `a` comes after `b` (so "N5" comes after "N4").
pub open spec fn level_after(a: Seq<char>, b: Seq<char>) -> bool {
    !text_le(a, b)
}

/// The suggestion at position `i` of the dictionary is shown before the
/// one at position `j`: exact readings first, then the later JLPT level
/// text first (N5 before N1), then dictionary order.
pub open spec fn ahead(kanji: Seq<Arc<Kanji>>, hira: Seq<char>, kata: Seq<char>, i: int, j: int) -> bool {
    let ei = exact_reading(*kanji[i], hira, kata);
    let ej = exact_reading(*kanji[j], hira, kata);
    (ei && !ej) || (ei == ej && (level_after(kanji[i].jlpt@, kanji[j].jlpt@) || (kanji[i].jlpt@
        == kanji[j].jlpt@ && i < j)))
}

/// The suggestions for the typed kana: the first `ASSIST_RESULTS` of the
/// suggested kanji in `ahead` order, as dictionary positions.
pub open spec fn ranked(res: Seq<usize>, kanji: Seq<Arc<Kanji>>, hira: Seq<char>, kata: Seq<char>) -> bool {
    &&& res.len() <= ASSIST_RESULTS
    &&& forall|a: int| 0 <= a < res.len() ==> res[a] < kanji.len() && suggests(*kanji[res[a] as int], hira, kata)
    &&& forall|a: int, b: int| 0 <= a < b < res.len() ==> ahead(kanji, hira, kata, #[trigger] res[a] as int, #[trigger] res[b] as int)
    &&& forall|k: int|
        0 <= k < kanji.len() && #[trigger] suggests(*kanji[k], hira, kata) ==> res.contains(k as usize)
            || (res.len() == ASSIST_RESULTS && ahead(kanji, hira, kata, res[res.len() - 1] as int, k))
}

proof fn lemma_text_le_refl(a: Seq<char>)
    ensures
        text_le(a, a),
    decreases a.len(),
{
    if a.len() > 0 {
        lemma_text_le_refl(a.drop_first());
    }
}

proof fn lemma_text_le_antisym(a: Seq<char>, b: Seq<char>)
    requires
        text_le(a, b),
        text_le(b, a),
    ensures
        a == b,
    decreases a.len(),
{
    if a.len() == 0 {
        assert(b.len() == 0);
        assert(a =~= b);
    } else {
        assert(b.len() > 0);
        assert(a[0] == b[0]);
        lemma_text_le_antisym(a.drop_first(), b.drop_first());
        assert(a.drop_first().len() == b.drop_first().len());
        assert(a.len() == b.len());
        assert forall|i: int| 0 <= i < a.len() implies a[i] == b[i] by {
            if i > 0 {
                assert(a[i] == a.drop_first()[i - 1]);
                assert(b[i] == b.drop_first()[i - 1]);
            }
        }
        assert(a =~= b);
    }
}

/// `ahead` orders any two distinct positions one way.
proof fn lemma_ahead_total(kanji: Seq<Arc<Kanji>>, hira: Seq<char>, kata: Seq<char>, i: int, j: int)
    requires
        i != j,
    ensures
        ahead(kanji, hira, kata, i, j) || ahead(kanji, hira, kata, j, i),
{
    let a = kanji[i].jlpt@;
    let b = kanji[j].jlpt@;
    lemma_text_le_total(a, b);
    if text_le(a, b) && text_le(b, a) {
        lemma_text_le_antisym(a, b);
    }
}

/// `ahead` never orders a position before itself, nor two positions both ways.
proof fn lemma_ahead_asym(kanji: Seq<Arc<Kanji>>, hira: Seq<char>, kata: Seq<char>, i: int, j: int)
    ensures
        !(ahead(kanji, hira, kata, i, j) && ahead(kanji, hira, kata, j, i)),
{
    let a = kanji[i].jlpt@;
    let b = kanji[j].jlpt@;
    lemma_text_le_total(a, b);
    lemma_text_le_refl(a);
}

/// `ahead` is transitive.
proof fn lemma_ahead_trans(
    kanji: Seq<Arc<Kanji>>,
    hira: Seq<char>,
    kata: Seq<char>,
    i: int,
    j: int,
    k: int,
)
    requires
        ahead(kanji, hira, kata, i, j),
        ahead(kanji, hira, kata, j, k),
    ensures
        ahead(kanji, hira, kata, i, k),
{
    let a = kanji[i].jlpt@;
    let b = kanji[j].jlpt@;
    let c = kanji[k].jlpt@;
    lemma_text_le_total(a, b);
    lemma_text_le_total(b, c);
    lemma_text_le_total(a, c);
    if text_le(b, a) && text_le(c, b) {
        lemma_text_le_trans(c, b, a);
    }
    if text_le(a, c) && text_le(c, a) {
        lemma_text_le_antisym(a, c);
    }
    lemma_text_le_refl(a);
    lemma_text_le_refl(b);
}


/// Whether the assistant suggests the kanji, and whether one of its
/// readings is the typed kana exactly.
fn judge(k: &Kanji, hira: &str, kata: &str) -> (res: (bool, bool))
    ensures
        res.0 == suggests(*k, hira@, kata@),
        res.1 == exact_reading(*k, hira@, kata@),
{
    let kun = strip_marks(k.kunyomi.as_str());
    let on = strip_marks(k.onyomi.as_str());
    let hit = contains_text(kun.as_str(), hira) || contains_text(on.as_str(), kata);
    let exact = reading_in(kun.as_str(), hira) || reading_in(on.as_str(), kata);
    (hit, exact)
}

/// Whether the suggestion `x` (a position and the exactness of its
/// reading) is shown before `y`.
fn ahead_exec(kanji: &Vec<Arc<Kanji>>, hira: &str, kata: &str, x: (usize, bool), y: (usize, bool)) -> (res: bool)
    requires
        x.0 < kanji@.len(),
        y.0 < kanji@.len(),
        x.1 == exact_reading(*kanji@[x.0 as int], hira@, kata@),
        y.1 == exact_reading(*kanji@[y.0 as int], hira@, kata@),
    ensures
        res == ahead(kanji@, hira@, kata@, x.0 as int, y.0 as int),
{
    if x.1 != y.1 {
        return x.1;
    }
    let b = chars_of(kanji[y.0].jlpt.as_str());
    if !text_le_str(kanji[x.0].jlpt.as_str(), &b) {
        return true;
    }
    same_text(kanji[x.0].jlpt.as_str(), kanji[y.0].jlpt.as_str()) && x.0 < y.0
}

/// The positions of a list of suggestions.
pub open spec fn positions(s: Seq<(usize, bool)>) -> Seq<usize> {
    s.map_values(|p: (usize, bool)| p.0)
}

/// Every suggestion of the list is a suggested kanji before position
/// `bound`, with the exactness of its reading.
pub open spec fn well_judged(
    out: Seq<(usize, bool)>,
    kanji: Seq<Arc<Kanji>>,
    hira: Seq<char>,
    kata: Seq<char>,
    bound: int,
) -> bool {
    forall|a: int|
        0 <= a < out.len() ==> (#[trigger] out[a]).0 < bound && suggests(*kanji[out[a].0 as int], hira, kata)
            && out[a].1 == exact_reading(*kanji[out[a].0 as int], hira, kata)
}

/// The list is in `ahead` order.
pub open spec fn in_ahead_order(
    out: Seq<(usize, bool)>,
    kanji: Seq<Arc<Kanji>>,
    hira: Seq<char>,
    kata: Seq<char>,
) -> bool {
    forall|a: int, b: int|
        0 <= a < b < out.len() ==> ahead(kanji, hira, kata, (#[trigger] out[a]).0 as int, (#[trigger] out[b]).0 as int)
}

/// Puts the suggestion at position `i` into the list at its place.
fn insert_ranked(
    kanji: &Vec<Arc<Kanji>>,
    hira: &str,
    kata: &str,
    out: &mut Vec<(usize, bool)>,
    i: usize,
    exact: bool,
)
    requires
        i < kanji@.len(),
        exact == exact_reading(*kanji@[i as int], hira@, kata@),
        suggests(*kanji@[i as int], hira@, kata@),
        well_judged(old(out)@, kanji@, hira@, kata@, i as int),
        in_ahead_order(old(out)@, kanji@, hira@, kata@),
    ensures
        well_judged(final(out)@, kanji@, hira@, kata@, i + 1),
        in_ahead_order(final(out)@, kanji@, hira@, kata@),
        positions(final(out)@).contains(i),
        forall|k: usize| positions(old(out)@).contains(k) ==> #[trigger] positions(final(out)@).contains(k),
{
    let ghost kv = kanji@;
    let ghost hs = hira@;
    let ghost ks = kata@;
    let mut p: usize = 0;
    while p < out.len() && ahead_exec(kanji, hira, kata, out[p], (i, exact))
        invariant
            p <= out@.len(),
            i < kv.len(),
            kv == kanji@,
            hs == hira@,
            ks == kata@,
            out@ == old(out)@,
            exact == exact_reading(*kv[i as int], hs, ks),
            well_judged(out@, kv, hs, ks, i as int),
            forall|a: int| 0 <= a < p ==> ahead(kv, hs, ks, (#[trigger] out@[a]).0 as int, i as int),
        decreases out@.len() - p,
    {
        p = p + 1;
    }
    let ghost before = out@;
    proof {
        assert forall|a: int| p <= a < before.len() implies ahead(kv, hs, ks, i as int, (#[trigger] before[a]).0 as int) by {
            lemma_ahead_total(kv, hs, ks, before[p as int].0 as int, i as int);
            if a > p {
                lemma_ahead_trans(kv, hs, ks, i as int, before[p as int].0 as int, before[a].0 as int);
            }
        }
    }
    out.insert(p, (i, exact));
    proof {
        let o = out@;
        assert(o =~= before.insert(p as int, (i, exact)));
        assert forall|a: int, b: int| 0 <= a < b < o.len() implies ahead(kv, hs, ks, (#[trigger] o[a]).0 as int, (#[trigger] o[b]).0 as int) by {
            if b < p {
                assert(o[a] == before[a] && o[b] == before[b]);
            } else if b == p {
                assert(o[a] == before[a]);
            } else if a < p {
                assert(o[a] == before[a] && o[b] == before[b - 1]);
                lemma_ahead_trans(kv, hs, ks, before[a].0 as int, i as int, before[b - 1].0 as int);
            } else if a == p {
                assert(o[b] == before[b - 1]);
            } else {
                assert(o[a] == before[a - 1] && o[b] == before[b - 1]);
            }
        }
        assert forall|a: int| 0 <= a < o.len() implies (#[trigger] o[a]).0 < i + 1 && suggests(*kv[o[a].0 as int], hs, ks)
            && o[a].1 == exact_reading(*kv[o[a].0 as int], hs, ks) by {
            if a < p {
                assert(o[a] == before[a]);
            } else if a > p {
                assert(o[a] == before[a - 1]);
            }
        }
        assert(positions(o)[p as int] == i);
        assert forall|k: usize| positions(before).contains(k) implies #[trigger] positions(o).contains(k) by {
            let w = choose|w: int| 0 <= w < before.len() && positions(before)[w] == k;
            if w < p {
                assert(positions(o)[w] == k);
            } else {
                assert(positions(o)[w + 1] == k);
            }
        }
    }
}

/// The kanji the assistant suggests for the kana typed last (`typed`,
/// trimmed): none when nothing is typed; otherwise the first
/// `ASSIST_RESULTS` of the kanji whose kun readings hold the kana as
/// hiragana or whose on readings hold them as katakana, exact readings
/// first, then from JLPT N5 to N1, then in dictionary order.
pub fn suggestions(kanji: &Vec<Arc<Kanji>>, typed: &str) -> (res: Vec<usize>)
    ensures
        trimmed(typed@).len() == 0 ==> res@.len() == 0,
        trimmed(typed@).len() > 0 ==> ranked(
            res@,
            kanji@,
            as_hiragana(trimmed(typed@)),
            as_katakana(trimmed(typed@)),
        ),
{
    let t = trim(typed);
    if t.as_str().unicode_len() == 0 {
        return Vec::new();
    }
    let tc = chars_of(t.as_str());
    let hira_chars = shift_kana(&tc, false);
    let kata_chars = shift_kana(&tc, true);
    let hira = string_from_chars(&hira_chars, 0, hira_chars.len());
    let kata = string_from_chars(&kata_chars, 0, kata_chars.len());
    assert(hira_chars@.subrange(0, hira_chars@.len() as int) =~= hira_chars@);
    assert(kata_chars@.subrange(0, kata_chars@.len() as int) =~= kata_chars@);
    let ghost hs = hira@;
    let ghost ks = kata@;
    let ghost kv = kanji@;
    let mut out: Vec<(usize, bool)> = Vec::new();
    let mut i: usize = 0;
    while i < kanji.len()
        invariant
            i <= kv.len(),
            kv == kanji@,
            hs == hira@,
            ks == kata@,
            well_judged(out@, kv, hs, ks, i as int),
            in_ahead_order(out@, kv, hs, ks),
            forall|k: int| 0 <= k < i && #[trigger] suggests(*kv[k], hs, ks) ==> positions(out@).contains(k as usize),
        decreases kv.len() - i,
    {
        let (hit, exact) = judge(&kanji[i], hira.as_str(), kata.as_str());
        if hit {
            let ghost before = out@;
            insert_ranked(kanji, hira.as_str(), kata.as_str(), &mut out, i, exact);
            assert forall|k: int| 0 <= k < i + 1 && #[trigger] suggests(*kv[k], hs, ks) implies positions(out@).contains(k as usize) by {
                if k < i {
                    assert(positions(before).contains(k as usize));
                }
            }
        }
        i = i + 1;
    }
    let mut res: Vec<usize> = Vec::new();
    let mut a: usize = 0;
    while a < out.len() && a < ASSIST_RESULTS
        invariant
            a <= out@.len(),
            a <= ASSIST_RESULTS,
            res@ == positions(out@).take(a as int),
        decreases out@.len() - a,
    {
        res.push(out[a].0);
        assert(positions(out@).take(a + 1) =~= positions(out@).take(a as int).push(out@[a as int].0));
        a = a + 1;
    }
    proof {
        let ps = positions(out@);
        assert forall|x: int| 0 <= x < res@.len() implies res@[x] < kv.len() && suggests(*kv[res@[x] as int], hs, ks) by {
            assert(res@[x] == out@[x].0);
        }
        assert forall|x: int, y: int| 0 <= x < y < res@.len() implies ahead(kv, hs, ks, #[trigger] res@[x] as int, #[trigger] res@[y] as int) by {
            assert(res@[x] == out@[x].0 && res@[y] == out@[y].0);
        }
        assert forall|k: int| 0 <= k < kv.len() && #[trigger] suggests(*kv[k], hs, ks) implies res@.contains(k as usize)
            || (res@.len() == ASSIST_RESULTS && ahead(kv, hs, ks, res@[res@.len() - 1] as int, k)) by {
            assert(ps.contains(k as usize));
            let w = choose|w: int| 0 <= w < ps.len() && ps[w] == k as usize;
            if w < a {
                assert(res@[w] == k as usize);
            } else {
                assert(res@.len() == ASSIST_RESULTS);
                assert(res@[res@.len() - 1] == out@[a - 1].0);
                assert(out@[w].0 == k);
            }
        }
    }
    res
}

/// The text after a suggestion is chosen: the kana typed last (the text
/// after the last white space, punctuation or kanji) replaced by the kanji.
pub fn accept_suggestion(input: &str, kanji: &str) -> (res: String)
    ensures
        res@ == input@.take(crate::browse::kana_run_start(input@) as int) + kanji@,
{
    let chars = chars_of(input);
    let n = chars.len();
    let mut j: usize = n;
    assert(input@.take(n as int) =~= input@);
    while j > 0 && !crate::browse::is_run_end(chars[j - 1])
        invariant
            chars@ == input@,
            j <= n == input@.len(),
            crate::browse::kana_run_start(input@) == crate::browse::kana_run_start(input@.take(j as int)),
        decreases j,
    {
        assert(input@.take(j as int).drop_last() =~= input@.take(j - 1));
        j = j - 1;
    }
    proof {
        if j == 0 {
            assert(input@.take(0) =~= Seq::<char>::empty());
        }
    }
    let mut out = string_from_chars(&chars, 0, j);
    assert(out@ =~= input@.take(j as int));
    out.append(kanji);
    out
}

} // verus!
