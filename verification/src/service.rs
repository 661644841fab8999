//! What the frontend asks of the loaded dictionary: the kanji with their
//! meanings, one kanji by its character, and the kanji of a list of ids.
use vstd::prelude::*;

use std::sync::Arc;

use crate::dictionary::{to_dto, Kanji, KanjiDto};
use crate::text_map::{pairs_map, TextMap};
use crate::translation::{KanjiTranslation, TranslationFile, TranslationView};

verus! {

/// The meaning of each translated kanji.
pub open spec fn meanings_view(entries: Map<Seq<char>, TranslationView>) -> Map<Seq<char>, Seq<char>> {
    entries.map_values(|t: TranslationView| t.0)
}

/// The meaning of each kanji of a translation file.
pub fn meanings_of(file: &TranslationFile) -> (res: TextMap<String>)
    ensures
        res@ == meanings_view(file.entries@),
{
    let pairs = file.entries.pairs();
    let mut out: TextMap<String> = TextMap::new();
    let mut i: usize = 0;
    assert(pairs@.subrange(0, 0) =~= Seq::<(String, KanjiTranslation)>::empty());
    assert(out@ =~= meanings_view(pairs_map(pairs@.subrange(0, 0))));
    while i < pairs.len()
        invariant
            i <= pairs@.len(),
            out@ == meanings_view(pairs_map(pairs@.subrange(0, i as int))),
        decreases pairs@.len() - i,
    {
        let (k, t) = &pairs[i];
        let ghost before = pairs_map(pairs@.subrange(0, i as int));
        assert(pairs@.subrange(0, i + 1).drop_last() =~= pairs@.subrange(0, i as int));
        assert(pairs_map(pairs@.subrange(0, i + 1)) == before.insert(k@, t@));
        out.insert(k.clone(), t.meaning.clone());
        assert(meanings_view(before.insert(k@, t@)) =~= meanings_view(before).insert(k@, t.meaning@));
        i = i + 1;
    }
    assert(pairs@.subrange(0, i as int) =~= pairs@);
    out
}

/// The meaning the frontend shows for a kanji: the known one, if any.
pub open spec fn meaning_for(meanings: Map<Seq<char>, Seq<char>>, kanji: Seq<char>, shown: Option<String>) -> bool {
    match shown {
        Some(m) => meanings.contains_key(kanji) && m@ == meanings[kanji],
        None => !meanings.contains_key(kanji),
    }
}

/// The frontend's copy of a kanji: its fields and its known meaning.
pub open spec fn dto_of(d: KanjiDto, k: Kanji, meanings: Map<Seq<char>, Seq<char>>) -> bool {
    &&& d.id == k.id
    &&& d.kanji == k.kanji
    &&& d.strokes == k.strokes
    &&& d.jlpt == k.jlpt
    &&& d.grade == k.grade
    &&& d.frequency == k.frequency
    &&& d.unicode == k.unicode
    &&& d.onyomi == k.onyomi
    &&& d.onyomi_romaji == k.onyomi_romaji
    &&& d.kunyomi == k.kunyomi
    &&& d.kunyomi_romaji == k.kunyomi_romaji
    &&& d.examples@ == k.example@
    &&& meaning_for(meanings, k.kanji@, d.meaning)
}

/// The frontend's copy of a kanji with its known meaning.
fn dto_with_meaning(k: &Kanji, meanings: &TextMap<String>) -> (res: KanjiDto)
    ensures
        dto_of(res, *k, meanings@),
{
    let meaning = match meanings.get(k.kanji.as_str()) {
        Some(m) => Some(m.clone()),
        None => None,
    };
    to_dto(k, meaning)
}

/// Every kanji of the dictionary, in order, with its known meaning.
pub fn kanji_list_dtos(kanji: &Vec<Arc<Kanji>>, meanings: &TextMap<String>) -> (res: Vec<KanjiDto>)
    ensures
        res@.len() == kanji@.len(),
        forall|i: int| 0 <= i < res@.len() ==> dto_of(#[trigger] res@[i], *kanji@[i], meanings@),
{
    let mut out: Vec<KanjiDto> = Vec::new();
    let mut i: usize = 0;
    while i < kanji.len()
        invariant
            i <= kanji@.len(),
            out@.len() == i,
            forall|a: int| 0 <= a < i ==> dto_of(#[trigger] out@[a], *kanji@[a], meanings@),
        decreases kanji@.len() - i,
    {
        let d = dto_with_meaning(&kanji[i], meanings);
        out.push(d);
        i = i + 1;
    }
    out
}

/// The position of the last kanji whose character is `ch`.
pub open spec fn last_with_char(kanji: Seq<Arc<Kanji>>, ch: Seq<char>) -> Option<int>
    decreases kanji.len(),
{
    if kanji.len() == 0 {
        None
    } else if kanji.last().kanji@ == ch {
        Some(kanji.len() - 1)
    } else {
        last_with_char(kanji.drop_last(), ch)
    }
}

/// The kanji whose character is `ch` (the last such when there are
/// several), with its known meaning.
pub fn kanji_by_char(kanji: &Vec<Arc<Kanji>>, ch: &str, meanings: &TextMap<String>) -> (res: Option<
    KanjiDto,
>)
    ensures
        match last_with_char(kanji@, ch@) {
            Some(p) => res matches Some(d) && dto_of(d, *kanji@[p], meanings@),
            None => res is None,
        },
{
    let mut p: usize = kanji.len();
    assert(kanji@.subrange(0, p as int) =~= kanji@);
    while p > 0
        invariant
            p <= kanji@.len(),
            last_with_char(kanji@, ch@) == last_with_char(kanji@.subrange(0, p as int), ch@),
        decreases p,
    {
        assert(kanji@.subrange(0, p as int).drop_last() =~= kanji@.subrange(0, p - 1));
        if crate::text::same_text(kanji[p - 1].kanji.as_str(), ch) {
            return Some(dto_with_meaning(&kanji[p - 1], meanings));
        }
        p = p - 1;
    }
    None
}

/// The position of the last kanji with the given id.
pub open spec fn last_with_id(kanji: Seq<Arc<Kanji>>, id: i32) -> Option<int>
    decreases kanji.len(),
{
    if kanji.len() == 0 {
        None
    } else if kanji.last().id == id {
        Some(kanji.len() - 1)
    } else {
        last_with_id(kanji.drop_last(), id)
    }
}

/// The position of the last kanji with the given id.
fn find_by_id(kanji: &Vec<Arc<Kanji>>, id: i32) -> (res: Option<usize>)
    ensures
        match res {
            Some(p) => p < kanji@.len() && last_with_id(kanji@, id) == Some(p as int),
            None => last_with_id(kanji@, id) is None,
        },
{
    let mut p: usize = kanji.len();
    assert(kanji@.subrange(0, p as int) =~= kanji@);
    while p > 0
        invariant
            p <= kanji@.len(),
            last_with_id(kanji@, id) == last_with_id(kanji@.subrange(0, p as int), id),
        decreases p,
    {
        assert(kanji@.subrange(0, p as int).drop_last() =~= kanji@.subrange(0, p - 1));
        if kanji[p - 1].id == id {
            return Some(p - 1);
        }
        p = p - 1;
    }
    None
}

/// The positions of the ids that some kanji has (the last with each id),
/// in the order of `ids`.
pub open spec fn found_positions(kanji: Seq<Arc<Kanji>>, ids: Seq<i32>) -> Seq<int>
    decreases ids.len(),
{
    if ids.len() == 0 {
        Seq::empty()
    } else {
        found_positions(kanji, ids.drop_last()) + match last_with_id(kanji, ids.last()) {
            Some(p) => seq![p],
            None => Seq::empty(),
        }
    }
}

/// The last kanji with an id is one of the kanji.
proof fn lemma_last_with_id_in_range(kanji: Seq<Arc<Kanji>>, id: i32)
    ensures
        last_with_id(kanji, id) matches Some(p) ==> 0 <= p < kanji.len() && kanji[p].id == id,
    decreases kanji.len(),
{
    if kanji.len() > 0 && kanji.last().id != id {
        lemma_last_with_id_in_range(kanji.drop_last(), id);
    }
}

/// Every found position is the position of a kanji with one of the ids.
proof fn lemma_found_positions_in_range(kanji: Seq<Arc<Kanji>>, ids: Seq<i32>)
    ensures
        forall|i: int|
            0 <= i < found_positions(kanji, ids).len() ==> 0 <= #[trigger] found_positions(
                kanji,
                ids,
            )[i] < kanji.len(),
    decreases ids.len(),
{
    if ids.len() > 0 {
        lemma_found_positions_in_range(kanji, ids.drop_last());
        lemma_last_with_id_in_range(kanji, ids.last());
        let prev = found_positions(kanji, ids.drop_last());
        let f = found_positions(kanji, ids);
        assert forall|i: int| 0 <= i < f.len() implies 0 <= #[trigger] f[i] < kanji.len() by {
            if i < prev.len() {
                assert(f[i] == prev[i]);
            }
        }
    }
}

/// The kanji of the given ids, in that order, with their known meanings;
/// an id that no kanji has is skipped.
pub fn dtos_for_ids(ids: &Vec<i32>, kanji: &Vec<Arc<Kanji>>, meanings: &TextMap<String>) -> (res: Vec<
    KanjiDto,
>)
    ensures
        res@.len() == found_positions(kanji@, ids@).len(),
        forall|i: int|
            0 <= i < res@.len() ==> 0 <= #[trigger] found_positions(kanji@, ids@)[i] < kanji@.len(),
        forall|i: int|
            0 <= i < res@.len() ==> dto_of(
                #[trigger] res@[i],
                *kanji@[found_positions(kanji@, ids@)[i]],
                meanings@,
            ),
{
    let mut out: Vec<KanjiDto> = Vec::new();
    let mut i: usize = 0;
    while i < ids.len()
        invariant
            i <= ids@.len(),
            out@.len() == found_positions(kanji@, ids@.subrange(0, i as int)).len(),
            forall|a: int|
                0 <= a < out@.len() ==> dto_of(
                    #[trigger] out@[a],
                    *kanji@[found_positions(kanji@, ids@.subrange(0, i as int))[a]],
                    meanings@,
                ),
        decreases ids@.len() - i,
    {
        let ghost prev = found_positions(kanji@, ids@.subrange(0, i as int));
        assert(ids@.subrange(0, i + 1).drop_last() =~= ids@.subrange(0, i as int));
        match find_by_id(kanji, ids[i]) {
            Some(p) => {
                let d = dto_with_meaning(&kanji[p], meanings);
                out.push(d);
                assert(found_positions(kanji@, ids@.subrange(0, i + 1)) =~= prev.push(p as int));
            },
            None => {
                assert(found_positions(kanji@, ids@.subrange(0, i + 1)) =~= prev);
            },
        }
        i = i + 1;
    }
    assert(ids@.subrange(0, i as int) =~= ids@);
    proof {
        lemma_found_positions_in_range(kanji@, ids@);
    }
    out
}

} // verus!
