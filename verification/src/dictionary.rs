//! The kanji dictionary: one record per kanji, and the database handle
//! whose rows are turned into those records.
use vstd::prelude::*;

use crate::language::{lemma_text_le_total, lemma_text_le_trans, text_le, text_le_str};
use crate::text::{
    chars_of, join, join_strings, lemma_join_clean, lemma_words_are_clean, lemma_words_of_clean,
    no_white_space, split_words, words,
};

verus! {

/// One kanji of the dictionary with its readings and example words.
#[derive(Clone, PartialEq, Debug)]
pub struct Kanji {
    pub id: i32,
    pub kanji: String,
    pub strokes: i8,
    pub jlpt: String,
    pub grade: String,
    pub frequency: String,
    pub unicode: String,
    pub onyomi: String,
    pub onyomi_romaji: String,
    pub kunyomi: String,
    pub kunyomi_romaji: String,
    pub example: Vec<String>,
}

/// Two records hold the same values.
pub open spec fn same_record(a: Kanji, b: Kanji) -> bool {
    &&& a.id == b.id
    &&& a.kanji == b.kanji
    &&& a.strokes == b.strokes
    &&& a.jlpt == b.jlpt
    &&& a.grade == b.grade
    &&& a.frequency == b.frequency
    &&& a.unicode == b.unicode
    &&& a.onyomi == b.onyomi
    &&& a.onyomi_romaji == b.onyomi_romaji
    &&& a.kunyomi == b.kunyomi
    &&& a.kunyomi_romaji == b.kunyomi_romaji
    &&& a.example@ == b.example@
}

impl Kanji {
    /// A copy of the record.
    pub fn copy(&self) -> (res: Kanji)
        ensures
            same_record(res, *self),
    {
        Kanji {
            id: self.id,
            kanji: self.kanji.clone(),
            strokes: self.strokes,
            jlpt: self.jlpt.clone(),
            grade: self.grade.clone(),
            frequency: self.frequency.clone(),
            unicode: self.unicode.clone(),
            onyomi: self.onyomi.clone(),
            onyomi_romaji: self.onyomi_romaji.clone(),
            kunyomi: self.kunyomi.clone(),
            kunyomi_romaji: self.kunyomi_romaji.clone(),
            example: crate::text::copy_strings(&self.example),
        }
    }
}

/// The columns of one row of the kanji query: the kanji table joined with
/// its readings, which may be missing.
pub struct KanjiRow {
    pub id: i32,
    pub kanji: String,
    pub strokes: i8,
    pub jlpt: String,
    pub grade: String,
    pub frequency: String,
    pub unicode: String,
    pub onyomi: Option<String>,
    pub onyomi_romaji: Option<String>,
    pub kunyomi: Option<String>,
    pub kunyomi_romaji: Option<String>,
}

/// The kana readings of a database column, one per word, separated by `、`.
pub open spec fn kana_readings(text: Seq<char>) -> Seq<char> {
    join(words(text), "、"@)
}

/// The romaji readings of a database column, one per word, separated by `, `.
pub open spec fn romaji_readings(text: Seq<char>) -> Seq<char> {
    join(words(text), ", "@)
}

/// The kana readings of a column that may be missing: empty when it is.
pub open spec fn kana_column(col: Option<String>) -> Seq<char> {
    match col {
        Some(s) => kana_readings(s@),
        None => Seq::empty(),
    }
}

/// The romaji readings of a column that may be missing: empty when it is.
pub open spec fn romaji_column(col: Option<String>) -> Seq<char> {
    match col {
        Some(s) => romaji_readings(s@),
        None => Seq::empty(),
    }
}

/// Handle on the kanji database file.
pub struct Database {
    path_to_db: String,
}

impl View for Database {
    type V = Seq<char>;

    /// The path of the database file.
    closed spec fn view(&self) -> Seq<char> {
        self.path_to_db@
    }
}

impl Database {
    pub fn new(path_to_db: &str) -> (res: Self)
        ensures
            res@ == path_to_db@,
    {
        Database { path_to_db: String::from_str(path_to_db) }
    }

    /// The path of the database file.
    pub fn path(&self) -> (res: &str)
        ensures
            res@ == self@,
    {
        self.path_to_db.as_str()
    }

    /// The words of an on'yomi or kun'yomi column joined with `、`; empty
    /// when the column holds only white space.
    pub fn split_on_or_kun(&self, text: &str) -> (res: String)
        ensures
            res@ == kana_readings(text@),
    {
        let parts = split_words(text);
        if parts.len() == 0 {
            return String::new();
        }
        join_strings(&parts, "、")
    }

    /// The words of a romaji reading column joined with `, `; empty when
    /// the column holds only white space.
    pub fn split_romaji(&self, text: &str) -> (res: String)
        ensures
            res@ == romaji_readings(text@),
    {
        let parts = split_words(text);
        if parts.len() == 0 {
            return String::new();
        }
        join_strings(&parts, ", ")
    }

    /// The kanji record of one query row, with its reading columns
    /// formatted and no examples yet.
    pub fn row_to_kanji(&self, row: KanjiRow) -> (res: Kanji)
        ensures
            res.id == row.id,
            res.kanji == row.kanji,
            res.strokes == row.strokes,
            res.jlpt == row.jlpt,
            res.grade == row.grade,
            res.frequency == row.frequency,
            res.unicode == row.unicode,
            res.onyomi@ == kana_column(row.onyomi),
            res.onyomi_romaji@ == romaji_column(row.onyomi_romaji),
            res.kunyomi@ == kana_column(row.kunyomi),
            res.kunyomi_romaji@ == romaji_column(row.kunyomi_romaji),
            res.example@.len() == 0,
    {
        let onyomi = match &row.onyomi {
            Some(s) => self.split_on_or_kun(s.as_str()),
            None => String::new(),
        };
        let onyomi_romaji = match &row.onyomi_romaji {
            Some(s) => self.split_romaji(s.as_str()),
            None => String::new(),
        };
        let kunyomi = match &row.kunyomi {
            Some(s) => self.split_on_or_kun(s.as_str()),
            None => String::new(),
        };
        let kunyomi_romaji = match &row.kunyomi_romaji {
            Some(s) => self.split_romaji(s.as_str()),
            None => String::new(),
        };
        Kanji {
            id: row.id,
            kanji: row.kanji,
            strokes: row.strokes,
            jlpt: row.jlpt,
            grade: row.grade,
            frequency: row.frequency,
            unicode: row.unicode,
            onyomi,
            onyomi_romaji,
            kunyomi,
            kunyomi_romaji,
            example: Vec::new(),
        }
    }
}

/// One common word of the bundled JMdict `words` table. `kanji` is missing
/// for kana-only words; either gloss may be missing.
#[derive(Clone, Debug)]
pub struct Word {
    pub id: i32,
    pub kanji: Option<String>,
    pub reading: String,
    pub gloss_en: Option<String>,
    pub gloss_ru: Option<String>,
    pub rank: i32,
}

/// A kanji as the frontend receives it, with its meaning if one is known.
#[derive(Clone, Debug)]
pub struct KanjiDto {
    pub id: i32,
    pub kanji: String,
    pub strokes: i8,
    pub jlpt: String,
    pub grade: String,
    pub frequency: String,
    pub unicode: String,
    pub onyomi: String,
    pub onyomi_romaji: String,
    pub kunyomi: String,
    pub kunyomi_romaji: String,
    pub examples: Vec<String>,
    pub meaning: Option<String>,
}

/// The frontend's copy of a kanji with the given meaning.
pub fn to_dto(k: &Kanji, meaning: Option<String>) -> (res: KanjiDto)
    ensures
        res.id == k.id,
        res.kanji == k.kanji,
        res.strokes == k.strokes,
        res.jlpt == k.jlpt,
        res.grade == k.grade,
        res.frequency == k.frequency,
        res.unicode == k.unicode,
        res.onyomi == k.onyomi,
        res.onyomi_romaji == k.onyomi_romaji,
        res.kunyomi == k.kunyomi,
        res.kunyomi_romaji == k.kunyomi_romaji,
        res.examples@ == k.example@,
        res.meaning == meaning,
{
    KanjiDto {
        id: k.id,
        kanji: k.kanji.clone(),
        strokes: k.strokes,
        jlpt: k.jlpt.clone(),
        grade: k.grade.clone(),
        frequency: k.frequency.clone(),
        unicode: k.unicode.clone(),
        onyomi: k.onyomi.clone(),
        onyomi_romaji: k.onyomi_romaji.clone(),
        kunyomi: k.kunyomi.clone(),
        kunyomi_romaji: k.kunyomi_romaji.clone(),
        examples: crate::text::copy_strings(&k.example),
        meaning,
    }
}

/// Formatting a kana reading column is idempotent: the words of an already
/// formatted column, joined again with `、`, give it back unchanged.
pub proof fn kana_readings_idempotent(text: Seq<char>)
    ensures
        kana_readings(kana_readings(text)) == kana_readings(text),
{
    reveal_strlit("、");
    let sep = "、"@;
    assert(no_white_space(sep));
    lemma_words_are_clean(text);
    lemma_join_clean(words(text), sep);
    let once = kana_readings(text);
    lemma_words_of_clean(once);
    if once.len() > 0 {
        assert(join(seq![once], sep) == once);
    } else {
        assert(join(Seq::<Seq<char>>::empty(), sep) == once);
    }
}


/// The last of the rows with the given kanji id.
pub open spec fn last_row_with(rows: Seq<KanjiRow>, id: i32) -> Option<KanjiRow>
    decreases rows.len(),
{
    if rows.len() == 0 {
        None
    } else if rows.last().id == id {
        Some(rows.last())
    } else {
        last_row_with(rows.drop_last(), id)
    }
}

/// The example words of a kanji: the words of each example text with its
/// id, the texts in query order.
pub open spec fn example_words(examples: Seq<(i32, String)>, id: i32) -> Seq<Seq<char>>
    decreases examples.len(),
{
    if examples.len() == 0 {
        Seq::empty()
    } else {
        example_words(examples.drop_last(), id) + if examples.last().0 == id {
            words(examples.last().1@)
        } else {
            Seq::empty()
        }
    }
}

/// The ids of the kanji records, in order.
pub open spec fn kanji_ids(ks: Seq<Kanji>) -> Seq<i32> {
    ks.map_values(|k: Kanji| k.id)
}

/// The record is the one the query gives for its id: the fields of the
/// last row with that id, the reading columns formatted, and the example
/// words of that id.
pub open spec fn assembled(k: Kanji, rows: Seq<KanjiRow>, examples: Seq<(i32, String)>) -> bool {
    match last_row_with(rows, k.id) {
        Some(r) => {
            &&& k.kanji == r.kanji
            &&& k.strokes == r.strokes
            &&& k.jlpt == r.jlpt
            &&& k.grade == r.grade
            &&& k.frequency == r.frequency
            &&& k.unicode == r.unicode
            &&& k.onyomi@ == kana_column(r.onyomi)
            &&& k.onyomi_romaji@ == romaji_column(r.onyomi_romaji)
            &&& k.kunyomi@ == kana_column(r.kunyomi)
            &&& k.kunyomi_romaji@ == romaji_column(r.kunyomi_romaji)
            &&& k.example@.map_values(|w: String| w@) == example_words(examples, k.id)
        },
        None => false,
    }
}

/// The kanji ids of the rows, in order.
pub open spec fn row_ids(rows: Seq<KanjiRow>) -> Seq<i32> {
    rows.map_values(|r: KanjiRow| r.id)
}

/// For each kanji id, the last row with it, at the place where the id first
/// appears.
fn last_rows(rows: Vec<KanjiRow>) -> (res: Vec<KanjiRow>)
    ensures
        row_ids(res@).no_duplicates(),
        forall|i: int| 0 <= i < res@.len() ==> last_row_with(rows@, #[trigger] res@[i].id) == Some(res@[i]),
        forall|j: int|
            0 <= j < rows@.len() ==> row_ids(res@).contains(
                #[trigger] rows@[j].id,
            ),
{
    let ghost all = rows@;
    let mut pending = rows;
    let mut rev: Vec<KanjiRow> = Vec::new();
    while pending.len() > 0
        invariant
            all == pending@ + rev@.reverse(),
        decreases pending.len(),
    {
        let r = pending.pop().unwrap();
        rev.push(r);
        assert(all =~= pending@ + rev@.reverse());
    }
    assert(rev@.reverse() =~= all);
    let ghost done: Seq<KanjiRow> = Seq::empty();
    let mut sel: Vec<KanjiRow> = Vec::new();
    while rev.len() > 0
        invariant
            all == done + rev@.reverse(),
            sel@.map_values(|r: KanjiRow| r.id).no_duplicates(),
            forall|i: int| 0 <= i < sel@.len() ==> last_row_with(done, #[trigger] sel@[i].id) == Some(sel@[i]),
            forall|j: int| 0 <= j < done.len() ==> exists|i: int| 0 <= i < sel@.len() && #[trigger] sel@[i].id == #[trigger] done[j].id,
        decreases rev.len(),
    {
        let row = rev.pop().unwrap();
        proof {
            assert(all =~= done.push(row) + rev@.reverse());
            assert(done.push(row).drop_last() =~= done);
        }
        let id = row.id;
        let mut k: usize = 0;
        while k < sel.len() && sel[k].id != id
            invariant
                k <= sel@.len(),
                forall|a: int| 0 <= a < k ==> (#[trigger] sel@[a]).id != id,
            decreases sel@.len() - k,
        {
            k = k + 1;
        }
        let ghost before = sel@;
        if k < sel.len() {
            sel.set(k, row);
            proof {
                assert(sel@.map_values(|r: KanjiRow| r.id) =~= before.map_values(|r: KanjiRow| r.id));
                assert forall|j: int| 0 <= j < done.len() + 1 implies exists|i: int|
                    0 <= i < sel@.len() && #[trigger] sel@[i].id == #[trigger] done.push(row)[j].id by {
                    if j < done.len() {
                        let i = choose|i: int| 0 <= i < before.len() && #[trigger] before[i].id == done[j].id;
                        assert(sel@[i].id == done.push(row)[j].id);
                    } else {
                        assert(sel@[k as int].id == done.push(row)[j].id);
                    }
                }
            }
        } else {
            sel.push(row);
            proof {
                let ids = sel@.map_values(|r: KanjiRow| r.id);
                assert(ids =~= before.map_values(|r: KanjiRow| r.id).push(id));
                assert forall|a: int, b: int| 0 <= a < ids.len() && 0 <= b < ids.len() && a != b implies ids[a] != ids[b] by {
                    if a < before.len() && b < before.len() {
                        assert(ids[a] == before.map_values(|r: KanjiRow| r.id)[a]);
                        assert(ids[b] == before.map_values(|r: KanjiRow| r.id)[b]);
                    } else if a < before.len() {
                        assert(before[a].id != id);
                    } else {
                        assert(before[b].id != id);
                    }
                }
                assert forall|j: int| 0 <= j < done.len() + 1 implies exists|i: int|
                    0 <= i < sel@.len() && #[trigger] sel@[i].id == #[trigger] done.push(row)[j].id by {
                    if j < done.len() {
                        let i = choose|i: int| 0 <= i < before.len() && #[trigger] before[i].id == done[j].id;
                        assert(sel@[i].id == done.push(row)[j].id);
                    } else {
                        assert(sel@[before.len() as int].id == done.push(row)[j].id);
                    }
                }
            }
        }
        proof {
            let d2 = done.push(row);
            assert(d2.drop_last() =~= done);
            assert forall|i: int| 0 <= i < sel@.len() implies last_row_with(d2, #[trigger] sel@[i].id)
                == Some(sel@[i]) by {
                if sel@[i].id == id {
                    if i < before.len() && i != k {
                        assert(before[i].id != id) by {
                            if k < before.len() {
                                assert(before.map_values(|r: KanjiRow| r.id)[i] == before.map_values(
                                    |r: KanjiRow| r.id,
                                )[k as int]);
                            }
                        }
                    }
                } else {
                    assert(sel@[i] == before[i]);
                }
            }
            done = d2;
        }
    }
    assert(done =~= all);
    assert forall|j: int| 0 <= j < rows@.len() implies sel@.map_values(|r: KanjiRow| r.id).contains(
        #[trigger] rows@[j].id,
    ) by {
        assert(done[j] == rows@[j]);
        let i = choose|i: int| 0 <= i < sel@.len() && #[trigger] sel@[i].id == done[j].id;
        assert(sel@.map_values(|r: KanjiRow| r.id)[i] == rows@[j].id);
    }
    sel
}


/// The example words of a kanji id, in query order.
fn example_words_of(examples: &Vec<(i32, String)>, id: i32) -> (res: Vec<String>)
    ensures
        res@.map_values(|w: String| w@) == example_words(examples@, id),
{
    let mut out: Vec<String> = Vec::new();
    let mut i: usize = 0;
    while i < examples.len()
        invariant
            i <= examples@.len(),
            out@.map_values(|w: String| w@) == example_words(examples@.subrange(0, i as int), id),
        decreases examples@.len() - i,
    {
        assert(examples@.subrange(0, i + 1).drop_last() =~= examples@.subrange(0, i as int));
        let ghost before = out@;
        if examples[i].0 == id {
            let mut ws = split_words(examples[i].1.as_str());
            let ghost added = ws@;
            out.append(&mut ws);
            assert(out@.map_values(|w: String| w@) =~= before.map_values(|w: String| w@)
                + added.map_values(|w: String| w@));
        } else {
            assert(out@.map_values(|w: String| w@) =~= before.map_values(|w: String| w@)
                + Seq::<Seq<char>>::empty());
        }
        i = i + 1;
    }
    assert(examples@.subrange(0, i as int) =~= examples@);
    out
}

/// The records are sorted by their kanji.
pub open spec fn sorted_by_kanji(ks: Seq<Kanji>) -> bool {
    forall|a: int, b: int| 0 <= a < b < ks.len() ==> text_le(#[trigger] ks[a].kanji@, #[trigger] ks[b].kanji@)
}

impl Database {
    /// The kanji records of the query: one per kanji id, made from the last
    /// row with that id (its reading columns formatted) and holding the
    /// words of every example text of that id, sorted by the kanji.
    pub fn assemble_kanji(&self, rows: Vec<KanjiRow>, examples: &Vec<(i32, String)>) -> (res: Vec<
        Kanji,
    >)
        ensures
            kanji_ids(res@).no_duplicates(),
            forall|i: int| 0 <= i < res@.len() ==> assembled(#[trigger] res@[i], rows@, examples@),
            forall|j: int| 0 <= j < rows@.len() ==> kanji_ids(res@).contains(#[trigger] rows@[j].id),
            sorted_by_kanji(res@),
    {
        let ghost all = rows@;
        let mut sel = last_rows(rows);
        let mut out: Vec<Kanji> = Vec::new();
        assert(kanji_ids(out@) =~= Seq::<i32>::empty());
        while sel.len() > 0
            invariant
                kanji_ids(out@).no_duplicates(),
                forall|i: int| 0 <= i < out@.len() ==> assembled(#[trigger] out@[i], all, examples@),
                sorted_by_kanji(out@),
                row_ids(sel@).no_duplicates(),
                forall|k: int| 0 <= k < sel@.len() ==> last_row_with(all, #[trigger] sel@[k].id) == Some(sel@[k]),
                forall|i: int, k: int| 0 <= i < out@.len() && 0 <= k < sel@.len() ==> (#[trigger] out@[i]).id != (#[trigger] sel@[k]).id,
                forall|j: int| 0 <= j < all.len() ==> kanji_ids(out@).contains(#[trigger] all[j].id)
                    || row_ids(sel@).contains(all[j].id),
            decreases sel@.len(),
        {
            let ghost sel_before = sel@;
            let row = sel.pop().unwrap();
            let ghost r = row;
            assert(sel@ =~= sel_before.drop_last());
            assert(sel_before[sel_before.len() - 1] == r);
            let mut k = self.row_to_kanji(row);
            k.example = example_words_of(examples, k.id);
            assert(assembled(k, all, examples@));
            let key = chars_of(k.kanji.as_str());
            let mut p: usize = 0;
            while p < out.len() && text_le_str(out[p].kanji.as_str(), &key)
                invariant
                    p <= out@.len(),
                    key@ == k.kanji@,
                    sorted_by_kanji(out@),
                    forall|a: int| 0 <= a < p ==> text_le(#[trigger] out@[a].kanji@, k.kanji@),
                decreases out@.len() - p,
            {
                p = p + 1;
            }
            proof {
                assert forall|a: int| p <= a < out@.len() implies text_le(k.kanji@, #[trigger] out@[a].kanji@) by {
                    lemma_text_le_total(out@[p as int].kanji@, k.kanji@);
                    if a > p {
                        lemma_text_le_trans(k.kanji@, out@[p as int].kanji@, out@[a].kanji@);
                    }
                }
            }
            let ghost before = out@;
            out.insert(p, k);
            proof {
                let o = out@;
                assert(o =~= before.insert(p as int, k));
                assert(kanji_ids(o) =~= kanji_ids(before).insert(p as int, k.id));
                assert forall|a: int, b: int| 0 <= a < b < o.len() implies text_le(#[trigger] o[a].kanji@, #[trigger] o[b].kanji@) by {
                    if b < p {
                        assert(o[a] == before[a] && o[b] == before[b]);
                    } else if b == p {
                        assert(o[a] == before[a]);
                    } else if a < p {
                        assert(o[a] == before[a] && o[b] == before[b - 1]);
                        lemma_text_le_trans(before[a].kanji@, k.kanji@, before[b - 1].kanji@);
                    } else if a == p {
                        assert(o[b] == before[b - 1]);
                    } else {
                        assert(o[a] == before[a - 1] && o[b] == before[b - 1]);
                    }
                }
                let last = sel_before.len() - 1;
                assert forall|i: int| 0 <= i < before.len() implies before[i].id != k.id by {
                    assert(before[i].id != sel_before[last].id);
                }
                assert forall|a: int, b: int| 0 <= a < o.len() && 0 <= b < o.len() && a != b implies kanji_ids(o)[a] != kanji_ids(o)[b] by {
                    let ia = if a < p { a } else if a == p { -1 } else { a - 1 };
                    let ib = if b < p { b } else if b == p { -1 } else { b - 1 };
                    if ia >= 0 && ib >= 0 {
                        assert(kanji_ids(o)[a] == kanji_ids(before)[ia]);
                        assert(kanji_ids(o)[b] == kanji_ids(before)[ib]);
                    } else if ia >= 0 {
                        assert(kanji_ids(o)[a] == before[ia].id);
                    } else if ib >= 0 {
                        assert(kanji_ids(o)[b] == before[ib].id);
                    }
                }
                assert forall|i: int| 0 <= i < o.len() implies assembled(#[trigger] o[i], all, examples@) by {
                    if i < p {
                        assert(o[i] == before[i]);
                    } else if i > p {
                        assert(o[i] == before[i - 1]);
                    }
                }
                assert forall|k2: int| 0 <= k2 < sel@.len() implies row_ids(sel_before)[k2] != row_ids(
                    sel_before,
                )[last] by {
                }
                assert(row_ids(sel@) =~= row_ids(sel_before).drop_last());
                assert forall|i: int, k2: int| 0 <= i < o.len() && 0 <= k2 < sel@.len() implies (#[trigger] o[i]).id != (#[trigger] sel@[k2]).id by {
                    assert(sel@[k2] == sel_before[k2]);
                    if i < p {
                        assert(o[i] == before[i]);
                    } else if i == p {
                        assert(row_ids(sel_before)[k2] == sel@[k2].id);
                    } else {
                        assert(o[i] == before[i - 1]);
                    }
                }
                assert forall|j: int| 0 <= j < all.len() implies kanji_ids(o).contains(#[trigger] all[j].id)
                    || row_ids(sel@).contains(all[j].id) by {
                    if kanji_ids(before).contains(all[j].id) {
                        let w = choose|w: int| 0 <= w < before.len() && kanji_ids(before)[w] == all[j].id;
                        if w < p {
                            assert(kanji_ids(o)[w] == all[j].id);
                        } else {
                            assert(kanji_ids(o)[w + 1] == all[j].id);
                        }
                    } else {
                        assert(row_ids(sel_before).contains(all[j].id));
                        let w = choose|w: int| 0 <= w < sel_before.len() && row_ids(sel_before)[w] == all[j].id;
                        if w == last {
                            assert(kanji_ids(o)[p as int] == all[j].id);
                        } else {
                            assert(row_ids(sel@)[w] == all[j].id);
                        }
                    }
                }
            }
        }
        proof {
            assert forall|j: int| 0 <= j < all.len() implies kanji_ids(out@).contains(#[trigger] all[j].id) by {
                if row_ids(sel@).contains(all[j].id) {
                    let w = choose|w: int| 0 <= w < sel@.len() && row_ids(sel@)[w] == all[j].id;
                    assert(false);
                }
            }
        }
        out
    }
}

} // verus!
