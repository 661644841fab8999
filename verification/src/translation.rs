//! The user's translations of kanji meanings and example words, and the
//! editor state that walks through the dictionary filling them in.
use vstd::prelude::*;

use std::sync::Arc;

use crate::browse::first_indices_where;
use crate::dictionary::Kanji;
use crate::text::{
    contains_text, copy_strings, decimal, i32_to_string, lowercase, occurs_in, same_text,
    str_lowercase, trim, trimmed,
};
use crate::text_map::TextMap;

verus! {

/// The meaning of a kanji and the translations of its example words.
#[derive(Clone, Debug)]
pub struct KanjiTranslation {
    pub meaning: String,
    pub translate_examples: Vec<String>,
}

/// A translation as plain values: the meaning and the example translations.
pub type TranslationView = (Seq<char>, Seq<Seq<char>>);

/// The view of each string of a sequence.
pub open spec fn strings_view(v: Seq<String>) -> Seq<Seq<char>> {
    v.map_values(|s: String| s@)
}

impl View for KanjiTranslation {
    type V = TranslationView;

    open spec fn view(&self) -> TranslationView {
        (self.meaning@, strings_view(self.translate_examples@))
    }
}

impl KanjiTranslation {
    /// An empty translation.
    pub fn new() -> (res: Self)
        ensures
            res@.0.len() == 0,
            res@.1.len() == 0,
    {
        KanjiTranslation { meaning: String::new(), translate_examples: Vec::new() }
    }

    /// A copy with the same meaning and example translations.
    pub fn copy(&self) -> (res: Self)
        ensures
            res@ == self@,
    {
        let ex = copy_strings(&self.translate_examples);
        KanjiTranslation { meaning: self.meaning.clone(), translate_examples: ex }
    }
}

/// Translations keyed by the kanji they belong to.
pub type TranslationEntries = TextMap<KanjiTranslation>;

/// The translation file: every translated kanji, and the id of the kanji
/// at which the user last saved.
pub struct TranslationFile {
    pub last_id: i32,
    pub entries: TranslationEntries,
}

impl TranslationFile {
    /// An empty file: no translations, `last_id` 0.
    pub fn new() -> (res: Self)
        ensures
            res.last_id == 0,
            res.entries@ == Map::<Seq<char>, TranslationView>::empty(),
    {
        TranslationFile { last_id: 0, entries: TranslationEntries::new() }
    }
}

/// The status messages the translation editor shows.
pub struct MessageTranslationData {
    pub file_load_success: String,
    pub file_not_found_or_invalid: String,
    pub saved_at_id: String,
    pub error_searialize_json: String,
    pub error_create_file: String,
}

/// The messages are the English ones.
pub open spec fn is_english(m: MessageTranslationData) -> bool {
    &&& m.file_load_success@ == "File loaded successfully"@
    &&& m.file_not_found_or_invalid@ == "File not found or invalid"@
    &&& m.saved_at_id@ == "Saved at ID"@
    &&& m.error_searialize_json@ == "Error serializing JSON"@
    &&& m.error_create_file@ == "Error creating file"@
}

impl MessageTranslationData {
    /// The English messages.
    pub fn default() -> (res: Self)
        ensures
            is_english(res),
    {
        MessageTranslationData {
            file_load_success: String::from_str("File loaded successfully"),
            file_not_found_or_invalid: String::from_str("File not found or invalid"),
            saved_at_id: String::from_str("Saved at ID"),
            error_searialize_json: String::from_str("Error serializing JSON"),
            error_create_file: String::from_str("Error creating file"),
        }
    }

    /// A copy of every message.
    pub fn copy(&self) -> (res: Self)
        ensures
            res == *self,
    {
        MessageTranslationData {
            file_load_success: self.file_load_success.clone(),
            file_not_found_or_invalid: self.file_not_found_or_invalid.clone(),
            saved_at_id: self.saved_at_id.clone(),
            error_searialize_json: self.error_searialize_json.clone(),
            error_create_file: self.error_create_file.clone(),
        }
    }
}

/// How writing the translation file ended.
pub enum SaveOutcome {
    /// The file was written.
    Saved,
    /// The file was created but the data could not be written as JSON.
    SerializeFailed,
    /// The file could not be created; the error as text.
    CreateFailed(String),
}

/// The example translations shown for a kanji: the stored ones, padded
/// with empty strings up to the kanji's number of examples.
pub open spec fn padded_examples(stored: Seq<Seq<char>>, target: nat) -> Seq<Seq<char>> {
    if stored.len() < target {
        stored + Seq::new((target - stored.len()) as nat, |i: int| Seq::<char>::empty())
    } else {
        stored
    }
}

/// The meaning the editor shows for a kanji: the stored one, or nothing.
pub open spec fn shown_meaning(entries: Map<Seq<char>, TranslationView>, kanji: Seq<char>) -> Seq<
    char,
> {
    if entries.contains_key(kanji) {
        entries[kanji].0
    } else {
        Seq::empty()
    }
}

/// The translated examples stored for a kanji, or none.
pub open spec fn stored_examples(entries: Map<Seq<char>, TranslationView>, kanji: Seq<char>) -> Seq<
    Seq<char>,
> {
    if entries.contains_key(kanji) {
        entries[kanji].1
    } else {
        Seq::empty()
    }
}

/// The example translations the editor shows for a kanji with `n_examples`
/// example words: the stored ones (or none), padded with empty strings.
pub open spec fn shown_examples(
    entries: Map<Seq<char>, TranslationView>,
    kanji: Seq<char>,
    n_examples: nat,
) -> Seq<Seq<char>> {
    padded_examples(stored_examples(entries, kanji), n_examples)
}

/// A translation recorded for a kanji is what the editor shows for that
/// kanji afterwards: the same meaning, and the same example translations
/// followed by empty ones up to the kanji's number of examples (none are
/// added when enough were recorded). Other kanji show what they showed before.
pub proof fn recorded_translation_is_shown_again(
    entries: Map<Seq<char>, TranslationView>,
    kanji: Seq<char>,
    meaning: Seq<char>,
    examples: Seq<Seq<char>>,
    n_examples: nat,
    other: Seq<char>,
)
    ensures
        shown_meaning(entries.insert(kanji, (meaning, examples)), kanji) == meaning,
        shown_examples(entries.insert(kanji, (meaning, examples)), kanji, n_examples).subrange(
            0,
            examples.len() as int,
        ) == examples,
        examples.len() >= n_examples ==> shown_examples(
            entries.insert(kanji, (meaning, examples)),
            kanji,
            n_examples,
        ) == examples,
        other != kanji ==> shown_meaning(entries.insert(kanji, (meaning, examples)), other)
            == shown_meaning(entries, other) && shown_examples(
            entries.insert(kanji, (meaning, examples)),
            other,
            n_examples,
        ) == shown_examples(entries, other, n_examples),
{
    let shown = shown_examples(entries.insert(kanji, (meaning, examples)), kanji, n_examples);
    assert(shown.subrange(0, examples.len() as int) =~= examples);
}

/// The state of the translation editor.
pub struct TranslateState {
    pub path_to_file: String,
    pub message_data: MessageTranslationData,
    pub data: TranslationFile,
    pub current_index: usize,
    pub meaning_buffer: String,
    pub examples_buffer: Vec<String>,
    pub status_message: String,
}

impl TranslateState {
    /// An editor with no path, the English messages and no data.
    pub fn default() -> (res: Self)
        ensures
            res.path_to_file@.len() == 0,
            is_english(res.message_data),
            res.data.last_id == 0,
            res.data.entries@ == Map::<Seq<char>, TranslationView>::empty(),
            res.current_index == 0,
            res.meaning_buffer@.len() == 0,
            res.examples_buffer@.len() == 0,
            res.status_message@.len() == 0,
    {
        TranslateState {
            path_to_file: String::new(),
            message_data: MessageTranslationData::default(),
            data: TranslationFile::new(),
            current_index: 0,
            meaning_buffer: String::new(),
            examples_buffer: Vec::new(),
            status_message: String::new(),
        }
    }

    /// An editor for the file at `path` with the given messages, no data yet.
    pub fn new(path: &str, message_data: MessageTranslationData) -> (res: Self)
        ensures
            res.path_to_file@ == path@,
            res.message_data == message_data,
            res.data.last_id == 0,
            res.data.entries@ == Map::<Seq<char>, TranslationView>::empty(),
            res.current_index == 0,
            res.meaning_buffer@.len() == 0,
            res.examples_buffer@.len() == 0,
            res.status_message@.len() == 0,
    {
        TranslateState {
            path_to_file: String::from_str(path),
            message_data,
            data: TranslationFile::new(),
            current_index: 0,
            meaning_buffer: String::new(),
            examples_buffer: Vec::new(),
            status_message: String::new(),
        }
    }

    /// The path of the translation file.
    pub fn path(&self) -> (res: &str)
        ensures
            res@ == self.path_to_file@,
    {
        self.path_to_file.as_str()
    }

    /// Takes in the outcome of reading the file at `new_path`: the parsed
    /// file, or `None` when it is missing or not valid. On success the data
    /// is replaced and the success message shown; otherwise the data is
    /// kept and the failure message shown. Returns whether it loaded.
    pub fn finish_load(&mut self, new_path: &str, loaded: Option<TranslationFile>) -> (res: bool)
        ensures
            res == loaded is Some,
            final(self).path_to_file@ == new_path@,
            final(self).message_data == old(self).message_data,
            match loaded {
                Some(f) => final(self).data == f && final(self).status_message
                    == old(self).message_data.file_load_success,
                None => final(self).data == old(self).data && final(self).status_message
                    == old(self).message_data.file_not_found_or_invalid,
            },
            final(self).current_index == old(self).current_index,
            final(self).meaning_buffer == old(self).meaning_buffer,
            final(self).examples_buffer == old(self).examples_buffer,
    {
        self.path_to_file = String::from_str(new_path);
        match loaded {
            Some(loaded_data) => {
                self.data = loaded_data;
                self.status_message = self.message_data.file_load_success.clone();
                true
            },
            None => {
                self.status_message = self.message_data.file_not_found_or_invalid.clone();
                false
            },
        }
    }

    /// Fills the editing buffers for `kanji` from the stored translation
    /// (empty when there is none), padding the example buffer with empty
    /// strings up to the kanji's number of examples.
    pub fn sync_translation_buffers(&mut self, kanji: &Kanji)
        ensures
            final(self).meaning_buffer@ == shown_meaning(old(self).data.entries@, kanji.kanji@),
            strings_view(final(self).examples_buffer@) == shown_examples(
                old(self).data.entries@,
                kanji.kanji@,
                kanji.example@.len(),
            ),
            final(self).data == old(self).data,
            final(self).path_to_file@ == old(self).path_to_file@,
            final(self).message_data == old(self).message_data,
            final(self).current_index == old(self).current_index,
            final(self).status_message == old(self).status_message,
    {
        let mut meaning = String::new();
        let mut examples: Vec<String> = Vec::new();
        if let Some(entry) = self.data.entries.get(kanji.kanji.as_str()) {
            meaning = entry.meaning.clone();
            examples = copy_strings(&entry.translate_examples);
        }
        let ghost stored = strings_view(examples@);
        let target_len = kanji.example.len();
        while examples.len() < target_len
            invariant
                stored.len() <= examples@.len(),
                examples@.len() <= target_len || examples@.len() == stored.len(),
                strings_view(examples@) == stored + Seq::new(
                    (examples@.len() - stored.len()) as nat,
                    |i: int| Seq::<char>::empty(),
                ),
            decreases target_len - examples@.len(),
        {
            let ghost before = examples@;
            let blank = String::new();
            examples.push(blank);
            assert(strings_view(examples@) =~= strings_view(before).push(Seq::<char>::empty()));
            assert(strings_view(examples@) =~= stored + Seq::new(
                (examples@.len() - stored.len()) as nat,
                |i: int| Seq::<char>::empty(),
            ));
        }
        assert(strings_view(examples@) =~= padded_examples(stored, kanji.example@.len()));
        self.meaning_buffer = meaning;
        self.examples_buffer = examples;
    }

    /// Stores the buffers as the translation of the kanji at
    /// `current_index` and records its id as `last_id`; nothing changes
    /// when the index is past the end of the list.
    pub fn record_current(&mut self, kanji: &Vec<Kanji>)
        ensures
            old(self).current_index < kanji@.len() ==> {
                let k = kanji@[old(self).current_index as int];
                &&& final(self).data.entries@ == old(self).data.entries@.insert(
                    k.kanji@,
                    (old(self).meaning_buffer@, strings_view(old(self).examples_buffer@)),
                )
                &&& final(self).data.last_id == k.id
            },
            old(self).current_index >= kanji@.len() ==> final(self).data.entries@ == old(
                self,
            ).data.entries@ && final(self).data.last_id == old(self).data.last_id,
            final(self).path_to_file@ == old(self).path_to_file@,
            final(self).message_data == old(self).message_data,
            final(self).current_index == old(self).current_index,
            final(self).meaning_buffer == old(self).meaning_buffer,
            final(self).examples_buffer == old(self).examples_buffer,
            final(self).status_message == old(self).status_message,
    {
        if self.current_index < kanji.len() {
            let k = &kanji[self.current_index];
            let entry = KanjiTranslation {
                meaning: self.meaning_buffer.clone(),
                translate_examples: copy_strings(&self.examples_buffer),
            };
            self.data.entries.insert(k.kanji.clone(), entry);
            self.data.last_id = k.id;
        }
    }

    /// Sets the status message after an attempt to write the file:
    /// `"<saved_at_id>: <last_id>"` when it was written, the serialization
    /// message when JSON could not be written, and
    /// `"<error_create_file>: <error>"` when the file could not be created.
    pub fn finish_save(&mut self, outcome: SaveOutcome)
        ensures
            final(self).status_message@ == match outcome {
                SaveOutcome::Saved => old(self).message_data.saved_at_id@ + ": "@ + crate::text::decimal(
                    old(self).data.last_id as int,
                ),
                SaveOutcome::SerializeFailed => old(self).message_data.error_searialize_json@,
                SaveOutcome::CreateFailed(e) => old(self).message_data.error_create_file@ + ": "@ + e@,
            },
            final(self).data == old(self).data,
            final(self).path_to_file@ == old(self).path_to_file@,
            final(self).message_data == old(self).message_data,
            final(self).current_index == old(self).current_index,
            final(self).meaning_buffer == old(self).meaning_buffer,
            final(self).examples_buffer == old(self).examples_buffer,
    {
        match outcome {
            SaveOutcome::Saved => {
                let mut msg = self.message_data.saved_at_id.clone();
                msg.append(": ");
                let id = i32_to_string(self.data.last_id);
                msg.append(id.as_str());
                self.status_message = msg;
            },
            SaveOutcome::SerializeFailed => {
                self.status_message = self.message_data.error_searialize_json.clone();
            },
            SaveOutcome::CreateFailed(e) => {
                let mut msg = self.message_data.error_create_file.clone();
                msg.append(": ");
                msg.append(e.as_str());
                self.status_message = msg;
            },
        }
    }
}


/// How many kanji the editor's jump search offers at most.
pub const JUMP_RESULTS: usize = 15;

/// The editor's jump search finds a kanji when the search occurs in the
/// kanji or a kana reading, occurs in a lowercased romaji reading, or is
/// the kanji's id in decimal.
pub open spec fn jump_hit(k: Kanji, q: Seq<char>) -> bool {
    occurs_in(q, k.kanji@) || decimal(k.id as int) == q || occurs_in(q, str_lowercase(k.onyomi_romaji@))
        || occurs_in(q, str_lowercase(k.kunyomi_romaji@)) || occurs_in(q, k.onyomi@) || occurs_in(
        q,
        k.kunyomi@,
    )
}

/// Whether the jump search finds the kanji.
fn jump_matches_one(k: &Kanji, q: &str) -> (res: bool)
    ensures
        res == jump_hit(*k, q@),
{
    if contains_text(k.kanji.as_str(), q) {
        return true;
    }
    let id = i32_to_string(k.id);
    if same_text(id.as_str(), q) {
        return true;
    }
    let on_r = lowercase(k.onyomi_romaji.as_str());
    let kun_r = lowercase(k.kunyomi_romaji.as_str());
    contains_text(on_r.as_str(), q) || contains_text(kun_r.as_str(), q) || contains_text(
        k.onyomi.as_str(),
        q,
    ) || contains_text(k.kunyomi.as_str(), q)
}

/// The kanji the editor's jump search offers: nothing while the search box
/// is empty; otherwise the first positions whose kanji the search (trimmed
/// and lowercased) finds, at most `JUMP_RESULTS` of them.
pub fn jump_matches(kanji: &Vec<Arc<Kanji>>, search: &str) -> (res: Vec<usize>)
    ensures
        search@.len() == 0 ==> res@.len() == 0,
        search@.len() > 0 ==> first_indices_where(
            res@,
            kanji@.len() as int,
            JUMP_RESULTS as int,
            |i: int| jump_hit(*kanji@[i], str_lowercase(trimmed(search@))),
        ),
{
    let mut out: Vec<usize> = Vec::new();
    if search.unicode_len() == 0 {
        return out;
    }
    let t = trim(search);
    let q = lowercase(t.as_str());
    let ghost p = |i: int| jump_hit(*kanji@[i], str_lowercase(trimmed(search@)));
    let mut i: usize = 0;
    while i < kanji.len() && out.len() < JUMP_RESULTS
        invariant
            i <= kanji@.len(),
            q@ == str_lowercase(trimmed(search@)),
            p == (|i: int| jump_hit(*kanji@[i], str_lowercase(trimmed(search@)))),
            out@.len() <= JUMP_RESULTS,
            forall|a: int, b: int| 0 <= a < b < out@.len() ==> out@[a] < out@[b],
            forall|a: int| 0 <= a < out@.len() ==> out@[a] < i && p(out@[a] as int),
            forall|k: int| 0 <= k < i && #[trigger] p(k) ==> out@.contains(k as usize),
        decreases kanji@.len() - i,
    {
        let hit = jump_matches_one(&kanji[i], q.as_str());
        if hit {
            let ghost before = out@;
            out.push(i);
            assert forall|k: int| 0 <= k < i + 1 && #[trigger] p(k) implies out@.contains(k as usize) by {
                if k < i {
                    assert(before.contains(k as usize));
                    let w = choose|w: int| 0 <= w < before.len() && before[w] == k as usize;
                    assert(out@[w] == k as usize);
                } else {
                    assert(out@[before.len() as int] == i);
                }
            }
        }
        i = i + 1;
    }
    proof {
        assert forall|k: int|
            0 <= k < kanji@.len() && #[trigger] p(k) && (out@.len() < JUMP_RESULTS || k <= out@[out@.len() - 1])
                implies out@.contains(k as usize) by {
            if k >= i {
                assert(out@.len() == JUMP_RESULTS);
                assert(out@[out@.len() - 1] < i);
            }
        }
    }
    out
}

impl TranslateState {
    /// Keeps the buffers as the translation of the kanji at the current
    /// position, without touching `last_id`.
    fn keep_buffers(&mut self, kanji: &Kanji)
        ensures
            final(self).data.entries@ == old(self).data.entries@.insert(
                kanji.kanji@,
                (old(self).meaning_buffer@, strings_view(old(self).examples_buffer@)),
            ),
            final(self).data.last_id == old(self).data.last_id,
            final(self).path_to_file@ == old(self).path_to_file@,
            final(self).message_data == old(self).message_data,
            final(self).current_index == old(self).current_index,
            final(self).meaning_buffer == old(self).meaning_buffer,
            final(self).examples_buffer == old(self).examples_buffer,
            final(self).status_message == old(self).status_message,
    {
        let entry = KanjiTranslation {
            meaning: self.meaning_buffer.clone(),
            translate_examples: copy_strings(&self.examples_buffer),
        };
        self.data.entries.insert(kanji.kanji.clone(), entry);
    }

    /// The previous button (shown while a kanji is being edited, enabled
    /// past the first): keeps the buffers as the current kanji's
    /// translation, steps back and shows the translation of that kanji.
    pub fn go_previous(&mut self, kanji: &Vec<Arc<Kanji>>)
        requires
            old(self).current_index < kanji@.len(),
        ensures
            old(self).current_index == 0 ==> *final(self) == *old(self),
            old(self).current_index > 0 ==> {
                let i = old(self).current_index as int;
                let entries = old(self).data.entries@.insert(
                    kanji@[i].kanji@,
                    (old(self).meaning_buffer@, strings_view(old(self).examples_buffer@)),
                );
                &&& final(self).data.entries@ == entries
                &&& final(self).data.last_id == old(self).data.last_id
                &&& final(self).current_index == i - 1
                &&& final(self).meaning_buffer@ == shown_meaning(entries, kanji@[i - 1].kanji@)
                &&& strings_view(final(self).examples_buffer@) == shown_examples(
                    entries,
                    kanji@[i - 1].kanji@,
                    kanji@[i - 1].example@.len(),
                )
                &&& final(self).status_message@.len() == 0
                &&& final(self).path_to_file@ == old(self).path_to_file@
                &&& final(self).message_data == old(self).message_data
            },
    {
        if self.current_index == 0 {
            return;
        }
        let i = self.current_index;
        self.keep_buffers(&kanji[i]);
        self.current_index = i - 1;
        self.sync_translation_buffers(&kanji[i - 1]);
        self.status_message = String::new();
    }

    /// The next button: keeps the buffers as the current kanji's
    /// translation and records its id as `last_id`, steps forward and shows
    /// the translation of the next kanji, if there is one (past the last
    /// kanji the editor has processed them all).
    pub fn go_next(&mut self, kanji: &Vec<Arc<Kanji>>)
        requires
            old(self).current_index < kanji@.len(),
        ensures
            ({
                let i = old(self).current_index as int;
                let entries = old(self).data.entries@.insert(
                    kanji@[i].kanji@,
                    (old(self).meaning_buffer@, strings_view(old(self).examples_buffer@)),
                );
                &&& final(self).data.entries@ == entries
                &&& final(self).data.last_id == kanji@[i].id
                &&& final(self).current_index == i + 1
                &&& i + 1 < kanji@.len() ==> final(self).meaning_buffer@ == shown_meaning(
                    entries,
                    kanji@[i + 1].kanji@,
                ) && strings_view(final(self).examples_buffer@) == shown_examples(
                    entries,
                    kanji@[i + 1].kanji@,
                    kanji@[i + 1].example@.len(),
                )
                &&& i + 1 == kanji@.len() ==> final(self).meaning_buffer == old(self).meaning_buffer
                    && final(self).examples_buffer == old(self).examples_buffer
                &&& final(self).status_message@.len() == 0
                &&& final(self).path_to_file@ == old(self).path_to_file@
                &&& final(self).message_data == old(self).message_data
            }),
    {
        let i = self.current_index;
        let n = kanji.len();
        assert(i < n);
        self.keep_buffers(&kanji[i]);
        self.data.last_id = kanji[i].id;
        self.current_index = i + 1;
        if i + 1 < kanji.len() {
            self.sync_translation_buffers(&kanji[i + 1]);
        }
        self.status_message = String::new();
    }

    /// Choosing a kanji offered by the jump search: the editor moves to it,
    /// shows its translation and the `found` message.
    pub fn jump_to(&mut self, index: usize, kanji: &Vec<Arc<Kanji>>, found: &str)
        ensures
            final(self).current_index == index,
            index < kanji@.len() ==> final(self).meaning_buffer@ == shown_meaning(
                old(self).data.entries@,
                kanji@[index as int].kanji@,
            ) && strings_view(final(self).examples_buffer@) == shown_examples(
                old(self).data.entries@,
                kanji@[index as int].kanji@,
                kanji@[index as int].example@.len(),
            ),
            index >= kanji@.len() ==> final(self).meaning_buffer == old(self).meaning_buffer
                && final(self).examples_buffer == old(self).examples_buffer,
            final(self).status_message@ == found@,
            final(self).data == old(self).data,
            final(self).path_to_file@ == old(self).path_to_file@,
            final(self).message_data == old(self).message_data,
    {
        self.current_index = index;
        if index < kanji.len() {
            self.sync_translation_buffers(&kanji[index]);
        }
        self.status_message = String::from_str(found);
    }
}


/// The translation shown beside the example word at position `i` of a
/// kanji: the stored one at that position, or an empty one.
pub open spec fn example_translation(
    entries: Map<Seq<char>, TranslationView>,
    kanji: Seq<char>,
    i: int,
) -> Seq<char> {
    if 0 <= i < stored_examples(entries, kanji).len() {
        stored_examples(entries, kanji)[i]
    } else {
        Seq::empty()
    }
}

/// The translation beside each example word of a kanji, as the kanji's page
/// shows them.
pub fn example_translations(kanji: &Kanji, translations: &TranslationEntries) -> (res: Vec<String>)
    ensures
        res@.len() == kanji.example@.len(),
        forall|i: int|
            0 <= i < res@.len() ==> (#[trigger] res@[i])@ == example_translation(
                translations@,
                kanji.kanji@,
                i,
            ),
{
    let entry = translations.get(kanji.kanji.as_str());
    let mut out: Vec<String> = Vec::new();
    let mut i: usize = 0;
    while i < kanji.example.len()
        invariant
            i <= kanji.example@.len(),
            out@.len() == i,
            match entry {
                Some(t) => translations@.contains_key(kanji.kanji@) && t@ == translations@[kanji.kanji@],
                None => !translations@.contains_key(kanji.kanji@),
            },
            forall|a: int|
                0 <= a < i ==> (#[trigger] out@[a])@ == example_translation(
                    translations@,
                    kanji.kanji@,
                    a,
                ),
        decreases kanji.example@.len() - i,
    {
        let text = match entry {
            Some(t) => {
                if i < t.translate_examples.len() {
                    t.translate_examples[i].clone()
                } else {
                    String::new()
                }
            },
            None => String::new(),
        };
        out.push(text);
        i = i + 1;
    }
    out
}


/// The meaning shown for a kanji: the stored one, or an empty text.
pub fn meaning_text(kanji: &str, translations: &TranslationEntries) -> (res: String)
    ensures
        res@ == shown_meaning(translations@, kanji@),
{
    match translations.get(kanji) {
        Some(t) => t.meaning.clone(),
        None => String::new(),
    }
}


/// The jump search finds a kanji by its kana readings and the kanji
/// itself, by its romaji readings lowercased, and by its id in decimal:
/// when the search box is not empty and the search, trimmed and
/// lowercased, occurs in one of them (or is the id), the kanji's position
/// is among the offered ones, unless `JUMP_RESULTS` earlier hits were
/// offered before it. Every offered position is such a kanji, and an
/// empty search box offers nothing.
pub proof fn jump_search_finds_kanji_by_any_reading(
    kanji: Seq<Arc<Kanji>>,
    search: Seq<char>,
    res: Seq<usize>,
    k: int,
)
    requires
        search.len() == 0 ==> res.len() == 0,
        search.len() > 0 ==> first_indices_where(
            res,
            kanji.len() as int,
            JUMP_RESULTS as int,
            |i: int| jump_hit(*kanji[i], str_lowercase(trimmed(search))),
        ),
    ensures
        ({
            let q = str_lowercase(trimmed(search));
            search.len() > 0 && 0 <= k < kanji.len() && (occurs_in(q, kanji[k].kanji@) || occurs_in(
                q,
                kanji[k].onyomi@,
            ) || occurs_in(q, kanji[k].kunyomi@) || occurs_in(
                q,
                str_lowercase(kanji[k].onyomi_romaji@),
            ) || occurs_in(q, str_lowercase(kanji[k].kunyomi_romaji@)) || decimal(kanji[k].id as int)
                == q) && (res.len() < JUMP_RESULTS || k <= res[res.len() - 1]) ==> res.contains(
                k as usize,
            )
        }),
        res.len() <= JUMP_RESULTS,
        forall|a: int|
            0 <= a < res.len() ==> {
                let q = str_lowercase(trimmed(search));
                let x = kanji[#[trigger] res[a] as int];
                &&& res[a] < kanji.len()
                &&& occurs_in(q, x.kanji@) || occurs_in(q, x.onyomi@) || occurs_in(q, x.kunyomi@)
                    || occurs_in(q, str_lowercase(x.onyomi_romaji@)) || occurs_in(
                    q,
                    str_lowercase(x.kunyomi_romaji@),
                ) || decimal(x.id as int) == q
            },
{
    let p = |i: int| jump_hit(*kanji[i], str_lowercase(trimmed(search)));
    if search.len() > 0 {
        if 0 <= k < kanji.len() {
            assert(p(k) && (res.len() < JUMP_RESULTS || k <= res[res.len() - 1]) ==> res.contains(
                k as usize,
            ));
        }
        assert forall|a: int| 0 <= a < res.len() implies p(#[trigger] res[a] as int) by {}
    }
}

} // verus!
