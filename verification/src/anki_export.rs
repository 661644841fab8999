//! Export of chosen kanji to Anki as tab-separated text: a header line that
//! names the chosen fields, then one line per kanji.
use vstd::prelude::*;

use std::collections::HashMap;
use std::sync::Arc;

use crate::browse::{in_level, level_matches, meaning_hit, meaning_matches, KanjiList};
use crate::dictionary::Kanji;
use crate::text::{
    chars_of, contains_text, join, join_strings, lowercase, occurs_in, push_char, same_text,
    str_lowercase, trim, trimmed,
};
use crate::translation::{
    shown_meaning, stored_examples, strings_view, KanjiTranslation, TranslationEntries,
    TranslationView,
};

verus! {

broadcast use vstd::std_specs::hash::group_hash_axioms;

/// Which fields of a kanji go into the export.
#[derive(Clone, Copy, Debug, PartialEq, Eq, Structural)]
pub struct ExportOptions {
    pub kanji: bool,
    pub meaning: bool,
    pub onyomi: bool,
    pub kunyomi: bool,
    pub jlpt: bool,
    pub examples: bool,
}

/// The names of the fields, as the header line shows them.
pub struct ExportFieldNames {
    pub field_kanji: String,
    pub field_meaning: String,
    pub field_onyomi: String,
    pub field_kunyomi: String,
    pub field_jlpt: String,
    pub field_examples: String,
}

/// `value` as a one-field list when the field is chosen, else no field.
pub open spec fn chosen(on: bool, value: Seq<char>) -> Seq<Seq<char>> {
    if on {
        seq![value]
    } else {
        Seq::empty()
    }
}

/// The names of the chosen fields, in the fixed field order.
pub open spec fn header_fields(o: ExportOptions, names: ExportFieldNames) -> Seq<Seq<char>> {
    chosen(o.kanji, names.field_kanji@) + chosen(o.meaning, names.field_meaning@) + chosen(
        o.onyomi,
        names.field_onyomi@,
    ) + chosen(o.kunyomi, names.field_kunyomi@) + chosen(o.jlpt, names.field_jlpt@) + chosen(
        o.examples,
        names.field_examples@,
    )
}

/// Appends `value` when `on`.
fn push_chosen(fields: &mut Vec<String>, on: bool, value: &String)
    ensures
        strings_view(final(fields)@) == strings_view(old(fields)@) + chosen(on, value@),
{
    let ghost before = fields@;
    if on {
        fields.push(value.clone());
        assert(strings_view(fields@) =~= strings_view(before) + chosen(on, value@));
    } else {
        assert(strings_view(fields@) =~= strings_view(before) + chosen(on, value@));
    }
}

/// The header line: the names of the chosen fields separated by tabs.
pub fn header_line(options: &ExportOptions, names: &ExportFieldNames) -> (res: String)
    ensures
        res@ == join(header_fields(*options, *names), "\t"@),
{
    let mut fields: Vec<String> = Vec::new();
    assert(strings_view(fields@) =~= Seq::<Seq<char>>::empty());
    push_chosen(&mut fields, options.kanji, &names.field_kanji);
    push_chosen(&mut fields, options.meaning, &names.field_meaning);
    push_chosen(&mut fields, options.onyomi, &names.field_onyomi);
    push_chosen(&mut fields, options.kunyomi, &names.field_kunyomi);
    push_chosen(&mut fields, options.jlpt, &names.field_jlpt);
    push_chosen(&mut fields, options.examples, &names.field_examples);
    assert(strings_view(fields@) =~= header_fields(*options, *names));
    join_strings(&fields, "\t")
}

/// A tab or a line break becomes a space, so that a field cannot break
/// the line or column structure.
pub open spec fn clean_char(c: char) -> char {
    if c == '\t' || c == '\n' {
        ' '
    } else {
        c
    }
}

/// The text with every tab and line break replaced by a space.
pub open spec fn cleaned(s: Seq<char>) -> Seq<char> {
    s.map_values(|c: char| clean_char(c))
}

/// The text with every tab and line break replaced by a space.
pub fn clean_field(s: &str) -> (res: String)
    ensures
        res@ == cleaned(s@),
{
    let chars = chars_of(s);
    let mut out = String::new();
    let mut i: usize = 0;
    while i < chars.len()
        invariant
            chars@ == s@,
            i <= chars@.len(),
            out@ == cleaned(s@.subrange(0, i as int)),
        decreases chars@.len() - i,
    {
        let c = chars[i];
        let ghost before = out@;
        if c == '\t' || c == '\n' {
            push_char(&mut out, ' ');
        } else {
            push_char(&mut out, c);
        }
        assert(cleaned(s@.subrange(0, i + 1)) =~= cleaned(s@.subrange(0, i as int)).push(
            clean_char(c),
        ));
        i = i + 1;
    }
    assert(s@.subrange(0, i as int) =~= s@);
    out
}

/// One example word: `example — translation`, or the example alone when
/// its translation is empty.
pub open spec fn example_entry(example: Seq<char>, translated: Seq<char>) -> Seq<char> {
    if translated.len() > 0 {
        example + " — "@ + translated
    } else {
        example
    }
}

/// Each example word with the translation at the same position (an empty
/// one where there is none).
pub open spec fn example_entries(examples: Seq<Seq<char>>, translated: Seq<Seq<char>>) -> Seq<
    Seq<char>,
> {
    Seq::new(
        examples.len(),
        |i: int|
            example_entry(
                examples[i],
                if i < translated.len() {
                    translated[i]
                } else {
                    Seq::empty()
                },
            ),
    )
}

/// The examples field: the example entries separated by `<br>`.
pub open spec fn examples_field(examples: Seq<Seq<char>>, translated: Seq<Seq<char>>) -> Seq<char> {
    join(example_entries(examples, translated), "<br>"@)
}

/// The examples field of a kanji with the given translation, if any.
fn examples_text(kanji: &Kanji, translation: Option<&KanjiTranslation>) -> (res: String)
    ensures
        res@ == examples_field(
            strings_view(kanji.example@),
            match translation {
                Some(t) => t@.1,
                None => Seq::empty(),
            },
        ),
{
    proof {
        reveal_strlit(" — ");
    }
    let ghost ex = strings_view(kanji.example@);
    let ghost tr = match translation {
        Some(t) => t@.1,
        None => Seq::<Seq<char>>::empty(),
    };
    let mut parts: Vec<String> = Vec::new();
    let mut i: usize = 0;
    while i < kanji.example.len()
        invariant
            ex == strings_view(kanji.example@),
            tr == match translation {
                Some(t) => t@.1,
                None => Seq::<Seq<char>>::empty(),
            },
            i <= kanji.example@.len(),
            strings_view(parts@) == example_entries(ex, tr).subrange(0, i as int),
        decreases kanji.example@.len() - i,
    {
        let mut entry = kanji.example[i].clone();
        match translation {
            Some(t) => {
                if i < t.translate_examples.len() {
                    if t.translate_examples[i].as_str().unicode_len() > 0 {
                        entry.append(" — ");
                        entry.append(t.translate_examples[i].as_str());
                    }
                }
            },
            None => {},
        }
        let ghost before = parts@;
        parts.push(entry);
        assert(strings_view(parts@) =~= strings_view(before).push(entry@));
        assert(example_entries(ex, tr).subrange(0, i + 1) =~= example_entries(ex, tr).subrange(
            0,
            i as int,
        ).push(entry@));
        i = i + 1;
    }
    assert(example_entries(ex, tr).subrange(0, i as int) =~= example_entries(ex, tr));
    join_strings(&parts, "<br>")
}

/// The fields of a kanji, in the fixed field order, before cleaning.
pub open spec fn row_fields(
    o: ExportOptions,
    k: Kanji,
    entries: Map<Seq<char>, TranslationView>,
) -> Seq<Seq<char>> {
    chosen(o.kanji, k.kanji@) + chosen(o.meaning, shown_meaning(entries, k.kanji@)) + chosen(
        o.onyomi,
        k.onyomi@,
    ) + chosen(o.kunyomi, k.kunyomi@) + chosen(o.jlpt, k.jlpt@) + chosen(
        o.examples,
        examples_field(strings_view(k.example@), stored_examples(entries, k.kanji@)),
    )
}

/// The line of a kanji: its chosen fields, each cleaned of tabs and line
/// breaks, separated by tabs.
pub open spec fn row_line(
    o: ExportOptions,
    k: Kanji,
    entries: Map<Seq<char>, TranslationView>,
) -> Seq<char> {
    join(row_fields(o, k, entries).map_values(|f: Seq<char>| cleaned(f)), "\t"@)
}

/// The export line of one kanji.
pub fn kanji_line(options: &ExportOptions, kanji: &Kanji, translations: &TranslationEntries) -> (res:
    String)
    ensures
        res@ == row_line(*options, *kanji, translations@),
{
    let translation = translations.get(kanji.kanji.as_str());
    let meaning = match translation {
        Some(t) => t.meaning.clone(),
        None => String::new(),
    };
    let examples = examples_text(kanji, translation);
    let mut fields: Vec<String> = Vec::new();
    assert(strings_view(fields@) =~= Seq::<Seq<char>>::empty());
    push_chosen(&mut fields, options.kanji, &kanji.kanji);
    push_chosen(&mut fields, options.meaning, &meaning);
    push_chosen(&mut fields, options.onyomi, &kanji.onyomi);
    push_chosen(&mut fields, options.kunyomi, &kanji.kunyomi);
    push_chosen(&mut fields, options.jlpt, &kanji.jlpt);
    push_chosen(&mut fields, options.examples, &examples);
    let ghost raw = strings_view(fields@);
    assert(raw =~= row_fields(*options, *kanji, translations@));
    let mut clean: Vec<String> = Vec::new();
    let mut i: usize = 0;
    while i < fields.len()
        invariant
            raw == strings_view(fields@),
            i <= fields@.len(),
            strings_view(clean@) == raw.subrange(0, i as int).map_values(|f: Seq<char>| cleaned(f)),
        decreases fields@.len() - i,
    {
        let c = clean_field(fields[i].as_str());
        let ghost before = clean@;
        clean.push(c);
        assert(strings_view(clean@) =~= strings_view(before).push(c@));
        assert(raw.subrange(0, i + 1).map_values(|f: Seq<char>| cleaned(f)) =~= raw.subrange(
            0,
            i as int,
        ).map_values(|f: Seq<char>| cleaned(f)).push(cleaned(raw[i as int])));
        i = i + 1;
    }
    assert(raw.subrange(0, i as int) =~= raw);
    join_strings(&clean, "\t")
}

/// The lines of the kanji among `ids` that `by_id` knows, in the order of
/// `ids`; unknown ids are left out.
pub open spec fn data_lines(
    o: ExportOptions,
    ids: Seq<i32>,
    by_id: Map<i32, Arc<Kanji>>,
    entries: Map<Seq<char>, TranslationView>,
) -> Seq<Seq<char>>
    decreases ids.len(),
{
    if ids.len() == 0 {
        Seq::empty()
    } else {
        data_lines(o, ids.drop_last(), by_id, entries) + if by_id.contains_key(ids.last()) {
            seq![row_line(o, *by_id[ids.last()], entries)]
        } else {
            Seq::empty()
        }
    }
}

/// The lines of the export: the header line, then the line of each known
/// kanji among `ids`.
pub open spec fn export_lines(
    o: ExportOptions,
    names: ExportFieldNames,
    ids: Seq<i32>,
    by_id: Map<i32, Arc<Kanji>>,
    entries: Map<Seq<char>, TranslationView>,
) -> Seq<Seq<char>> {
    seq![join(header_fields(o, names), "\t"@)] + data_lines(o, ids, by_id, entries)
}

/// The text of the export file: the header line and one line per kanji
/// of `ids` (in that order; ids of no known kanji are skipped), joined
/// with line breaks.
pub fn export_text(
    options: &ExportOptions,
    names: &ExportFieldNames,
    ids: &Vec<i32>,
    kanji_by_id: &HashMap<i32, Arc<Kanji>>,
    translations: &TranslationEntries,
) -> (res: String)
    ensures
        res@ == join(export_lines(*options, *names, ids@, kanji_by_id@, translations@), "\n"@),
{
    let mut lines: Vec<String> = Vec::new();
    lines.push(header_line(options, names));
    let ghost head = seq![join(header_fields(*options, *names), "\t"@)];
    assert(strings_view(lines@) =~= head + data_lines(
        *options,
        ids@.subrange(0, 0),
        kanji_by_id@,
        translations@,
    ));
    let mut i: usize = 0;
    while i < ids.len()
        invariant
            i <= ids@.len(),
            head == seq![join(header_fields(*options, *names), "\t"@)],
            strings_view(lines@) == head + data_lines(
                *options,
                ids@.subrange(0, i as int),
                kanji_by_id@,
                translations@,
            ),
        decreases ids@.len() - i,
    {
        let id = ids[i];
        assert(ids@.subrange(0, i + 1).drop_last() =~= ids@.subrange(0, i as int));
        let ghost before = lines@;
        match kanji_by_id.get(&id) {
            Some(k) => {
                let line = kanji_line(options, k, translations);
                lines.push(line);
                assert(strings_view(lines@) =~= strings_view(before).push(line@));
            },
            None => {},
        }
        i = i + 1;
    }
    assert(ids@.subrange(0, i as int) =~= ids@);
    join_strings(&lines, "\n")
}

/// The three steps of the export: choosing kanji, reviewing them, and
/// choosing the fields.
#[derive(Clone, Copy, Debug, PartialEq, Eq, Structural)]
pub enum ExportStep {
    Selection,
    Review,
    Options,
}

/// The search of the selection grid, trimmed and lowercased.
pub open spec fn selection_query(raw: Seq<char>) -> Seq<char> {
    str_lowercase(trimmed(raw))
}

/// The selection grid shows a kanji of the chosen level when the search
/// is empty, or occurs in the kanji, in a romaji reading or in its
/// lowercased meaning.
pub open spec fn selection_shows(
    k: Kanji,
    list: KanjiList,
    q: Seq<char>,
    entries: Map<Seq<char>, TranslationView>,
) -> bool {
    in_level(list, k.jlpt@) && (q.len() == 0 || occurs_in(q, k.kanji@) || occurs_in(
        q,
        k.onyomi_romaji@,
    ) || occurs_in(q, k.kunyomi_romaji@) || meaning_hit(k, q, entries))
}

/// The results kept for the grid were computed for this search and list.
pub open spec fn results_are_for(
    last_query: Option<String>,
    last_list: Option<KanjiList>,
    q: Seq<char>,
    list: KanjiList,
) -> bool {
    &&& last_query matches Some(lq) && lq@ == q
    &&& last_list == Some(list)
}

/// The state of the export tool.
pub struct AnkiExportState {
    pub step: ExportStep,
    pub search_query: String,
    pub selected_list: KanjiList,
    pub last_search_query: Option<String>,
    pub last_selected_list: Option<KanjiList>,
    pub cached_results: Vec<usize>,
    pub selected_kanji_ids: Vec<i32>,
    pub options: ExportOptions,
    pub status_message: Option<String>,
}

impl AnkiExportState {
    /// No id is selected twice.
    pub open spec fn wf(&self) -> bool {
        self.selected_kanji_ids@.no_duplicates()
    }

    /// The first step with an empty search over all levels, nothing
    /// selected, no results computed yet, and the given fields chosen.
    pub fn new(options: ExportOptions) -> (res: Self)
        ensures
            res.wf(),
            res.step == ExportStep::Selection,
            res.search_query@.len() == 0,
            res.selected_list == KanjiList::All,
            res.last_search_query is None,
            res.last_selected_list is None,
            res.cached_results@.len() == 0,
            res.selected_kanji_ids@.len() == 0,
            res.options == options,
            res.status_message is None,
    {
        AnkiExportState {
            step: ExportStep::Selection,
            search_query: String::new(),
            selected_list: KanjiList::All,
            last_search_query: None,
            last_selected_list: None,
            cached_results: Vec::new(),
            selected_kanji_ids: Vec::new(),
            options,
            status_message: None,
        }
    }

    /// Brings the grid's results up to date: when the search (trimmed and
    /// lowercased) or the level differs from those the results were
    /// computed for, they are computed again, as the positions of the
    /// kanji that the grid shows, in dictionary order; otherwise nothing
    /// changes.
    pub fn refresh_results(&mut self, kanji: &Vec<Arc<Kanji>>, translations: &TranslationEntries)
        ensures
            results_are_for(
                old(self).last_search_query,
                old(self).last_selected_list,
                selection_query(old(self).search_query@),
                old(self).selected_list,
            ) ==> *final(self) == *old(self),
            !results_are_for(
                old(self).last_search_query,
                old(self).last_selected_list,
                selection_query(old(self).search_query@),
                old(self).selected_list,
            ) ==> {
                &&& crate::browse::indices_where(
                    final(self).cached_results@,
                    kanji@.len() as int,
                    |i: int|
                        selection_shows(
                            *kanji@[i],
                            old(self).selected_list,
                            selection_query(old(self).search_query@),
                            translations@,
                        ),
                )
                &&& results_are_for(
                    final(self).last_search_query,
                    final(self).last_selected_list,
                    selection_query(old(self).search_query@),
                    old(self).selected_list,
                )
                &&& final(self).step == old(self).step
                &&& final(self).search_query == old(self).search_query
                &&& final(self).selected_list == old(self).selected_list
                &&& final(self).selected_kanji_ids == old(self).selected_kanji_ids
                &&& final(self).options == old(self).options
                &&& final(self).status_message == old(self).status_message
            },
    {
        let trimmed_query = trim(self.search_query.as_str());
        let query = lowercase(trimmed_query.as_str());
        let list = self.selected_list;
        let query_same = match &self.last_search_query {
            Some(last) => same_text(last.as_str(), query.as_str()),
            None => false,
        };
        let list_same = match self.last_selected_list {
            Some(last) => last == list,
            None => false,
        };
        if query_same && list_same {
            return;
        }
        let is_search_empty = query.as_str().unicode_len() == 0;
        let ghost q = query@;
        let ghost p = |i: int| selection_shows(*kanji@[i], list, q, translations@);
        let mut out: Vec<usize> = Vec::new();
        let mut i: usize = 0;
        while i < kanji.len()
            invariant
                i <= kanji@.len(),
                q == query@,
                is_search_empty == (q.len() == 0),
                p == (|i: int| selection_shows(*kanji@[i], list, q, translations@)),
                forall|a: int, b: int| 0 <= a < b < out@.len() ==> out@[a] < out@[b],
                forall|a: int| 0 <= a < out@.len() ==> out@[a] < i && p(out@[a] as int),
                forall|k: int| 0 <= k < i && #[trigger] p(k) ==> out@.contains(k as usize),
            decreases kanji@.len() - i,
        {
            let item: &Kanji = &kanji[i];
            let shown = level_matches(list, item.jlpt.as_str()) && (is_search_empty
                || contains_text(item.kanji.as_str(), query.as_str()) || contains_text(
                item.onyomi_romaji.as_str(),
                query.as_str(),
            ) || contains_text(item.kunyomi_romaji.as_str(), query.as_str()) || meaning_matches(
                item,
                query.as_str(),
                translations,
            ));
            assert(shown == p(i as int));
            if shown {
                let ghost before = out@;
                out.push(i);
                assert forall|k: int| 0 <= k < i + 1 && #[trigger] p(k) implies out@.contains(
                    k as usize,
                ) by {
                    if k < i {
                        assert(before.contains(k as usize));
                        let w = choose|w: int| 0 <= w < before.len() && before[w] == k as usize;
                        assert(out@[w] == k as usize);
                    } else {
                        assert(out@[before.len() as int] == i);
                    }
                }
            }
            i = i + 1;
        }
        self.cached_results = out;
        self.last_search_query = Some(query);
        self.last_selected_list = Some(list);
    }
}

/// The selection after a click on the kanji `id`: it leaves the selection
/// when it was in it, and joins it at the end otherwise.
pub open spec fn toggled(ids: Seq<i32>, id: i32) -> Seq<i32> {
    if ids.contains(id) {
        ids.remove_value(id)
    } else {
        ids.push(id)
    }
}

/// The position of `id` in `ids`, if it is there.
fn position_of(ids: &Vec<i32>, id: i32) -> (res: Option<usize>)
    ensures
        match res {
            Some(k) => k < ids@.len() && ids@[k as int] == id && ids@.index_of_first(id) == Some(
                k as int,
            ),
            None => !ids@.contains(id),
        },
{
    let mut k: usize = 0;
    while k < ids.len()
        invariant
            k <= ids@.len(),
            forall|j: int| 0 <= j < k ==> ids@[j] != id,
        decreases ids@.len() - k,
    {
        if ids[k] == id {
            proof {
                ids@.index_of_first_ensures(id);
            }
            return Some(k);
        }
        k = k + 1;
    }
    None
}

/// Whether `id` is among `ids`.
pub(crate) fn contains_id(ids: &Vec<i32>, id: i32) -> (res: bool)
    ensures
        res == ids@.contains(id),
{
    position_of(ids, id).is_some()
}

/// Removing one item keeps a sequence free of duplicates.
proof fn lemma_remove_keeps_no_duplicates(s: Seq<i32>, k: int)
    requires
        s.no_duplicates(),
        0 <= k < s.len(),
    ensures
        s.remove(k).no_duplicates(),
        s.remove(k).to_set() == s.to_set().remove(s[k]),
{
    let r = s.remove(k);
    assert forall|a: int, b: int| 0 <= a < r.len() && 0 <= b < r.len() && a != b implies r[a]
        != r[b] by {
        let ia = if a < k { a } else { a + 1 };
        let ib = if b < k { b } else { b + 1 };
        assert(r[a] == s[ia] && r[b] == s[ib]);
    }
    assert forall|x: i32| #[trigger] r.to_set().contains(x) <==> s.to_set().remove(s[k]).contains(x) by {
        if r.to_set().contains(x) {
            let a = choose|a: int| 0 <= a < r.len() && r[a] == x;
            let ia = if a < k { a } else { a + 1 };
            assert(s[ia] == x);
        }
        if s.to_set().remove(s[k]).contains(x) {
            let i = choose|i: int| 0 <= i < s.len() && s[i] == x;
            assert(i != k);
            if i < k {
                assert(r[i] == x);
            } else {
                assert(r[i - 1] == x);
            }
        }
    }
    assert(r.to_set() =~= s.to_set().remove(s[k]));
}

impl AnkiExportState {
    /// Whether the kanji `id` is selected.
    pub fn is_selected(&self, id: i32) -> (res: bool)
        ensures
            res == self.selected_kanji_ids@.contains(id),
    {
        position_of(&self.selected_kanji_ids, id).is_some()
    }

    /// A click on the kanji `id` in the grid: deselects it when it is
    /// selected, selects it otherwise.
    pub fn toggle_selected(&mut self, id: i32)
        requires
            old(self).wf(),
        ensures
            final(self).wf(),
            final(self).selected_kanji_ids@ == toggled(old(self).selected_kanji_ids@, id),
            final(self).step == old(self).step,
            final(self).search_query == old(self).search_query,
            final(self).selected_list == old(self).selected_list,
            final(self).cached_results == old(self).cached_results,
            final(self).options == old(self).options,
    {
        match position_of(&self.selected_kanji_ids, id) {
            Some(k) => {
                proof {
                    lemma_remove_keeps_no_duplicates(self.selected_kanji_ids@, k as int);
                }
                self.selected_kanji_ids.remove(k);
            },
            None => {
                self.selected_kanji_ids.push(id);
            },
        }
    }

    /// The review's remove button for the kanji `id`: it leaves the
    /// selection, and the tool goes back to choosing kanji when nothing
    /// is left selected.
    pub fn remove_selected(&mut self, id: i32)
        requires
            old(self).wf(),
        ensures
            final(self).wf(),
            final(self).selected_kanji_ids@ == old(self).selected_kanji_ids@.remove_value(id),
            final(self).step == if final(self).selected_kanji_ids@.len() == 0 {
                ExportStep::Selection
            } else {
                old(self).step
            },
            final(self).options == old(self).options,
    {
        proof {
            old(self).selected_kanji_ids@.index_of_first_ensures(id);
        }
        match position_of(&self.selected_kanji_ids, id) {
            Some(k) => {
                proof {
                    lemma_remove_keeps_no_duplicates(self.selected_kanji_ids@, k as int);
                }
                self.selected_kanji_ids.remove(k);
            },
            None => {},
        }
        if self.selected_kanji_ids.len() == 0 {
            self.step = ExportStep::Selection;
        }
    }

    /// The review's clear button: nothing stays selected and the tool goes
    /// back to choosing kanji.
    pub fn clear_selection(&mut self)
        ensures
            final(self).wf(),
            final(self).selected_kanji_ids@.len() == 0,
            final(self).step == ExportStep::Selection,
            final(self).options == old(self).options,
    {
        self.selected_kanji_ids.clear();
        self.step = ExportStep::Selection;
    }

    /// The next button: from choosing kanji to the review (only when some
    /// kanji is selected), and from the review to the field options.
    pub fn next_step(&mut self)
        ensures
            final(self).step == match old(self).step {
                ExportStep::Selection => if old(self).selected_kanji_ids@.len() > 0 {
                    ExportStep::Review
                } else {
                    ExportStep::Selection
                },
                ExportStep::Review => ExportStep::Options,
                ExportStep::Options => ExportStep::Options,
            },
            final(self).selected_kanji_ids == old(self).selected_kanji_ids,
            final(self).options == old(self).options,
    {
        match self.step {
            ExportStep::Selection => {
                if self.selected_kanji_ids.len() > 0 {
                    self.step = ExportStep::Review;
                }
            },
            ExportStep::Review => {
                self.step = ExportStep::Options;
            },
            ExportStep::Options => {},
        }
    }

    /// The back button: from the field options to the review, and from the
    /// review to choosing kanji.
    pub fn previous_step(&mut self)
        ensures
            final(self).step == match old(self).step {
                ExportStep::Options => ExportStep::Review,
                _ => ExportStep::Selection,
            },
            final(self).selected_kanji_ids == old(self).selected_kanji_ids,
            final(self).options == old(self).options,
    {
        match self.step {
            ExportStep::Options => {
                self.step = ExportStep::Review;
            },
            _ => {
                self.step = ExportStep::Selection;
            },
        }
    }
}

/// Clicking a kanji twice leaves the same kanji selected as before (the
/// kanji moves to the end of the selection order), and a selection never
/// holds a kanji twice.
pub proof fn clicking_twice_restores_the_selection(ids: Seq<i32>, id: i32)
    requires
        ids.no_duplicates(),
    ensures
        toggled(ids, id).no_duplicates(),
        toggled(toggled(ids, id), id).to_set() == ids.to_set(),
{
    ids.index_of_first_ensures(id);
    if ids.contains(id) {
        let k = ids.index_of_first(id).unwrap();
        lemma_remove_keeps_no_duplicates(ids, k);
        let t = ids.remove(k);
        assert(!t.to_set().contains(id));
        assert(!t.contains(id)) by {
            if t.contains(id) {
                let j = choose|j: int| 0 <= j < t.len() && t[j] == id;
                assert(t.to_set().contains(t[j]));
            }
        }
        let u = t.push(id);
        t.lemma_push_to_set_commute(id);
        assert(ids.to_set() =~= ids.to_set().remove(id).insert(id)) by {
            assert(ids.to_set().contains(ids[k]));
        }
    } else {
        let t = ids.push(id);
        assert(t.no_duplicates());
        assert(t.contains(id)) by {
            assert(t[ids.len() as int] == id);
        }
        t.index_of_first_ensures(id);
        let k = t.index_of_first(id).unwrap();
        assert(k == ids.len()) by {
            if k < ids.len() {
                assert(ids[k] == id);
            }
        }
        lemma_remove_keeps_no_duplicates(t, k);
        assert(t.remove(k) =~= ids);
    }
}


/// How many times `c` occurs in `s`.
pub open spec fn count_of(s: Seq<char>, c: char) -> nat
    decreases s.len(),
{
    if s.len() == 0 {
        0
    } else {
        count_of(s.drop_last(), c) + if s.last() == c {
            1nat
        } else {
            0nat
        }
    }
}

proof fn lemma_count_add(a: Seq<char>, b: Seq<char>, c: char)
    ensures
        count_of(a + b, c) == count_of(a, c) + count_of(b, c),
    decreases b.len(),
{
    if b.len() == 0 {
        assert(a + b =~= a);
    } else {
        lemma_count_add(a, b.drop_last(), c);
        assert((a + b).drop_last() =~= a + b.drop_last());
    }
}

proof fn lemma_cleaned_has_no_breaks(s: Seq<char>)
    ensures
        count_of(cleaned(s), '\t') == 0,
        count_of(cleaned(s), '\n') == 0,
    decreases s.len(),
{
    if s.len() > 0 {
        lemma_cleaned_has_no_breaks(s.drop_last());
        assert(cleaned(s).drop_last() =~= cleaned(s.drop_last()));
    }
}

/// Joining `n > 0` parts free of `c` with a separator that is one `c`
/// gives `n - 1` of them; a char in neither the parts nor the separator
/// does not occur.
proof fn lemma_join_count(parts: Seq<Seq<char>>, c: char, d: char)
    requires
        parts.len() > 0,
        forall|i: int| 0 <= i < parts.len() ==> count_of(#[trigger] parts[i], c) == 0,
        forall|i: int| 0 <= i < parts.len() ==> count_of(#[trigger] parts[i], d) == 0,
        c != d,
    ensures
        count_of(join(parts, seq![c]), c) + 1 == parts.len(),
        count_of(join(parts, seq![c]), d) == 0,
    decreases parts.len(),
{
    if parts.len() > 1 {
        let init = parts.drop_last();
        assert forall|i: int| 0 <= i < init.len() implies count_of(#[trigger] init[i], c) == 0
            && count_of(init[i], d) == 0 by {
            assert(init[i] == parts[i]);
        }
        lemma_join_count(init, c, d);
        let j = join(init, seq![c]);
        lemma_count_add(j, seq![c], c);
        lemma_count_add(j + seq![c], parts.last(), c);
        lemma_count_add(j, seq![c], d);
        lemma_count_add(j + seq![c], parts.last(), d);
        assert(seq![c].drop_last() =~= Seq::<char>::empty());
        assert(count_of(Seq::<char>::empty(), c) == 0);
        assert(count_of(Seq::<char>::empty(), d) == 0);
        assert(seq![c].last() == c);
        assert(count_of(seq![c], c) == 1);
        assert(count_of(seq![c], d) == 0);
        assert(join(parts, seq![c]) == j + seq![c] + parts.last());
        assert(count_of(parts.last(), c) == 0 && count_of(parts.last(), d) == 0) by {
            assert(parts.last() == parts[parts.len() - 1]);
        }
    }
}

/// An export line is a single line with one column per chosen field: none
/// of its fields holds a tab or a line break, so it holds one tab fewer
/// than there are chosen fields, which is as many tabs as the header line
/// has when no field name holds a tab.
pub proof fn an_export_line_has_one_column_per_field(
    o: ExportOptions,
    names: ExportFieldNames,
    k: Kanji,
    entries: Map<Seq<char>, TranslationView>,
)
    ensures
        count_of(row_line(o, k, entries), '\n') == 0,
        row_fields(o, k, entries).len() == header_fields(o, names).len(),
        header_fields(o, names).len() > 0 ==> count_of(row_line(o, k, entries), '\t') + 1
            == header_fields(o, names).len(),
        header_fields(o, names).len() > 0 && (forall|i: int|
            0 <= i < header_fields(o, names).len() ==> count_of(
                #[trigger] header_fields(o, names)[i],
                '\t',
            ) == 0) ==> count_of(join(header_fields(o, names), "\t"@), '\t') == count_of(
            row_line(o, k, entries),
            '\t',
        ),
{
    reveal_strlit("\t");
    assert("\t"@ =~= seq!['\t']);
    let fields = row_fields(o, k, entries).map_values(|f: Seq<char>| cleaned(f));
    assert forall|i: int| 0 <= i < fields.len() implies count_of(#[trigger] fields[i], '\t') == 0
        && count_of(fields[i], '\n') == 0 by {
        lemma_cleaned_has_no_breaks(row_fields(o, k, entries)[i]);
    }
    if fields.len() > 0 {
        lemma_join_count(fields, '\t', '\n');
    } else {
        assert(row_line(o, k, entries) =~= Seq::<char>::empty());
    }
    let h = header_fields(o, names);
    if h.len() > 0 && (forall|i: int| 0 <= i < h.len() ==> count_of(#[trigger] h[i], '\t') == 0) {
        lemma_join_count_one(h, '\t');
    }
}

/// Joining `n > 0` parts free of `c` with a separator that is one `c`
/// gives `n - 1` of them.
proof fn lemma_join_count_one(parts: Seq<Seq<char>>, c: char)
    requires
        parts.len() > 0,
        forall|i: int| 0 <= i < parts.len() ==> count_of(#[trigger] parts[i], c) == 0,
    ensures
        count_of(join(parts, seq![c]), c) + 1 == parts.len(),
    decreases parts.len(),
{
    if parts.len() > 1 {
        let init = parts.drop_last();
        assert forall|i: int| 0 <= i < init.len() implies count_of(#[trigger] init[i], c) == 0 by {
            assert(init[i] == parts[i]);
        }
        lemma_join_count_one(init, c);
        let j = join(init, seq![c]);
        lemma_count_add(j, seq![c], c);
        lemma_count_add(j + seq![c], parts.last(), c);
        assert(seq![c].drop_last() =~= Seq::<char>::empty());
        assert(count_of(Seq::<char>::empty(), c) == 0);
        assert(count_of(seq![c], c) == 1);
        assert(join(parts, seq![c]) == j + seq![c] + parts.last());
        assert(count_of(parts.last(), c) == 0) by {
            assert(parts.last() == parts[parts.len() - 1]);
        }
    }
}


/// The export grid finds a kanji of the chosen level by the kanji itself,
/// by its romaji readings and by its lowercased meaning: wherever the
/// search, trimmed and lowercased, occurs in one of them, the kanji's
/// position is among the results computed for that search and level.
/// Every result is a kanji of the level that, unless the search is empty,
/// holds the search in one of those.
pub proof fn export_grid_finds_kanji_by_romaji_or_meaning(
    kanji: Seq<Arc<Kanji>>,
    list: KanjiList,
    search: Seq<char>,
    entries: Map<Seq<char>, TranslationView>,
    res: Seq<usize>,
    k: int,
)
    requires
        crate::browse::indices_where(
            res,
            kanji.len() as int,
            |i: int| selection_shows(*kanji[i], list, selection_query(search), entries),
        ),
    ensures
        ({
            let q = str_lowercase(trimmed(search));
            0 <= k < kanji.len() && in_level(list, kanji[k].jlpt@) && (occurs_in(q, kanji[k].kanji@)
                || occurs_in(q, kanji[k].onyomi_romaji@) || occurs_in(q, kanji[k].kunyomi_romaji@) || (
            entries.contains_key(kanji[k].kanji@) && occurs_in(
                q,
                str_lowercase(entries[kanji[k].kanji@].0),
            ))) ==> res.contains(k as usize)
        }),
        forall|a: int|
            0 <= a < res.len() ==> {
                let q = str_lowercase(trimmed(search));
                let x = kanji[#[trigger] res[a] as int];
                &&& res[a] < kanji.len()
                &&& in_level(list, x.jlpt@)
                &&& q.len() == 0 || occurs_in(q, x.kanji@) || occurs_in(q, x.onyomi_romaji@)
                    || occurs_in(q, x.kunyomi_romaji@) || (entries.contains_key(x.kanji@) && occurs_in(
                    q,
                    str_lowercase(entries[x.kanji@].0),
                ))
            },
{
    let p = |i: int| selection_shows(*kanji[i], list, selection_query(search), entries);
    if 0 <= k < kanji.len() {
        assert(p(k) ==> res.contains(k as usize));
    }
    assert forall|a: int| 0 <= a < res.len() implies p(#[trigger] res[a] as int) by {}
}

} // verus!
