//! Flash-card sessions over a shuffled selection of kanji, and the state of
//! the deck builder.
use vstd::prelude::*;

use std::sync::Arc;

use crate::anki_export::contains_id;
use crate::browse::first_indices_where;
use crate::dictionary::{same_record, Kanji};
use crate::text::{contains_text, lowercase, occurs_in, str_lowercase};
use rand::seq::SliceRandom;

verus! {

/// Calls `rand::seq::SliceRandom::shuffle` with the thread-local generator
/// `rand::rng()`. The result holds the same items, each as often as
/// before; their order depends on the random generator and is not stated.
#[verifier::external_body]
fn shuffled<T>(items: Vec<T>) -> (res: Vec<T>)
    ensures
        res@.to_multiset() == items@.to_multiset(),
{
    let mut items = items;
    items.shuffle(&mut rand::rng());
    items
}

/// An active flash-card session.
pub struct CardsSession {
    pub queue: Vec<Kanji>,
    pub current_index: usize,
    pub is_card_flipped: bool,
    pub total_count: usize,
    pub finished: bool,
}

/// The number of cards a session over `n` kanji holds: `limit` when it is
/// positive and smaller than `n`, otherwise all `n`.
pub open spec fn session_size(n: nat, limit: nat) -> nat {
    if 0 < limit && limit < n {
        limit
    } else {
        n
    }
}

impl CardsSession {
    /// A session over the given kanji in random order, cut to `limit`
    /// cards (0 means no limit), starting at the first card, face down.
    pub fn new(kanji_list: Vec<Kanji>, limit: usize) -> (res: Self)
        ensures
            res.queue@.len() == session_size(kanji_list@.len(), limit as nat),
            res.queue@.to_multiset().subset_of(kanji_list@.to_multiset()),
            res.queue@.len() == kanji_list@.len() ==> res.queue@.to_multiset()
                == kanji_list@.to_multiset(),
            res.total_count == res.queue@.len(),
            res.current_index == 0,
            !res.is_card_flipped,
            !res.finished,
    {
        let ghost given = kanji_list@;
        let mut kanji_list = shuffled(kanji_list);
        proof {
            kanji_list@.to_multiset_ensures();
            given.to_multiset_ensures();
        }
        if limit > 0 && limit < kanji_list.len() {
            let ghost full = kanji_list@;
            kanji_list.truncate(limit);
            proof {
                lemma_prefix_sub_multiset(full, limit as int);
            }
        }
        CardsSession {
            total_count: kanji_list.len(),
            queue: kanji_list,
            current_index: 0,
            is_card_flipped: false,
            finished: false,
        }
    }

    /// A click on the card turns it over.
    pub fn flip(&mut self)
        ensures
            final(self).is_card_flipped == !old(self).is_card_flipped,
            final(self).queue == old(self).queue,
            final(self).current_index == old(self).current_index,
            final(self).total_count == old(self).total_count,
            final(self).finished == old(self).finished,
    {
        self.is_card_flipped = !self.is_card_flipped;
    }

    /// The card being shown, if the position is inside the queue.
    pub fn current_card(&self) -> (res: Option<&Kanji>)
        ensures
            match res {
                Some(k) => self.current_index < self.queue@.len() && *k == self.queue@[self.current_index as int],
                None => self.current_index >= self.queue@.len(),
            },
    {
        if self.current_index < self.queue.len() {
            Some(&self.queue[self.current_index])
        } else {
            None
        }
    }

    /// Moves to the next card face down, or marks the session finished
    /// when the current card is the last one.
    pub fn next(&mut self)
        requires
            old(self).queue@.len() > 0,
        ensures
            old(self).current_index < old(self).queue@.len() - 1 ==> final(self).current_index
                == old(self).current_index + 1 && !final(self).is_card_flipped && final(self).finished
                == old(self).finished,
            old(self).current_index >= old(self).queue@.len() - 1 ==> final(self).finished
                && final(self).current_index == old(self).current_index
                && final(self).is_card_flipped == old(self).is_card_flipped,
            final(self).queue == old(self).queue,
            final(self).total_count == old(self).total_count,
    {
        if self.current_index < self.queue.len() - 1 {
            self.current_index += 1;
            self.is_card_flipped = false;
        } else {
            self.finished = true;
        }
    }
}

/// A prefix of a sequence holds no more of any item than the whole.
proof fn lemma_prefix_sub_multiset<T>(s: Seq<T>, n: int)
    requires
        0 <= n <= s.len(),
    ensures
        s.subrange(0, n).to_multiset().subset_of(s.to_multiset()),
    decreases s.len(),
{
    broadcast use vstd::seq_lib::group_to_multiset_ensures;
    if n < s.len() {
        lemma_prefix_sub_multiset(s.drop_last(), n);
        assert(s.drop_last().subrange(0, n) =~= s.subrange(0, n));
        assert(s =~= s.drop_last().push(s.last()));
        assert(s.drop_last().to_multiset().subset_of(s.to_multiset()));
    } else {
        assert(s.subrange(0, n) =~= s);
    }
}

/// The deck builder: the name and search being typed, the chosen kanji
/// ids and whether an existing deck is being edited.
pub struct DeckBuilderState {
    pub deck_name_buffer: String,
    pub search_buffer: String,
    pub selected_kanji_idx: Vec<i32>,
    pub is_editing: bool,
}

impl DeckBuilderState {
    /// Empty buffers, nothing selected, not editing.
    pub fn default() -> (res: Self)
        ensures
            res.deck_name_buffer@.len() == 0,
            res.search_buffer@.len() == 0,
            res.selected_kanji_idx@.len() == 0,
            !res.is_editing,
    {
        DeckBuilderState {
            deck_name_buffer: String::new(),
            search_buffer: String::new(),
            selected_kanji_idx: Vec::new(),
            is_editing: false,
        }
    }

    /// The builder opened on an existing deck, to edit it.
    pub fn editing(name: String, ids: Vec<i32>) -> (res: Self)
        ensures
            res.deck_name_buffer == name,
            res.search_buffer@.len() == 0,
            res.selected_kanji_idx == ids,
            res.is_editing,
    {
        DeckBuilderState {
            deck_name_buffer: name,
            search_buffer: String::new(),
            selected_kanji_idx: ids,
            is_editing: true,
        }
    }

    /// The kanji the builder offers for its search: none while the search
    /// (lowercased) is empty; otherwise the first positions whose kanji or
    /// romaji readings hold it, at most `DECK_CANDIDATES` of them.
    pub fn candidates(&self, kanji: &Vec<Arc<Kanji>>) -> (res: Vec<usize>)
        ensures
            str_lowercase(self.search_buffer@).len() == 0 ==> res@.len() == 0,
            str_lowercase(self.search_buffer@).len() > 0 ==> first_indices_where(
                res@,
                kanji@.len() as int,
                DECK_CANDIDATES as int,
                |i: int| deck_hit(*kanji@[i], str_lowercase(self.search_buffer@)),
            ),
    {
        let mut out: Vec<usize> = Vec::new();
        let q = lowercase(self.search_buffer.as_str());
        if q.as_str().unicode_len() == 0 {
            return out;
        }
        let ghost p = |i: int| deck_hit(*kanji@[i], str_lowercase(self.search_buffer@));
        let mut i: usize = 0;
        while i < kanji.len() && out.len() < DECK_CANDIDATES
            invariant
                i <= kanji@.len(),
                q@ == str_lowercase(self.search_buffer@),
                p == (|i: int| deck_hit(*kanji@[i], str_lowercase(self.search_buffer@))),
                out@.len() <= DECK_CANDIDATES,
                forall|a: int, b: int| 0 <= a < b < out@.len() ==> out@[a] < out@[b],
                forall|a: int| 0 <= a < out@.len() ==> out@[a] < i && p(out@[a] as int),
                forall|k: int| 0 <= k < i && #[trigger] p(k) ==> out@.contains(k as usize),
            decreases kanji@.len() - i,
        {
            let k: &Kanji = &kanji[i];
            let hit = contains_text(k.kanji.as_str(), q.as_str()) || contains_text(
                k.onyomi_romaji.as_str(),
                q.as_str(),
            ) || contains_text(k.kunyomi_romaji.as_str(), q.as_str());
            assert(hit == p(i as int));
            if hit {
                let ghost before = out@;
                out.push(i);
                assert forall|k: int| 0 <= k < i + 1 && #[trigger] p(k) implies out@.contains(k as usize) by {
                    if k < i {
                        assert(before.contains(k as usize));
                        let w = choose|w: int| 0 <= w < before.len() && before[w] == k as usize;
                        assert(out@[w] == k as usize);
                    } else {
                        assert(out@[before.len() as int] == i);
                    }
                }
            }
            i = i + 1;
        }
        proof {
            assert forall|k: int|
                0 <= k < kanji@.len() && #[trigger] p(k) && (out@.len() < DECK_CANDIDATES || k
                    <= out@[out@.len() - 1]) implies out@.contains(k as usize) by {
                if k >= i {
                    assert(out@[out@.len() - 1] < i);
                }
            }
        }
        out
    }

    /// The add button of a kanji: it joins the deck unless it is in it.
    pub fn add_kanji(&mut self, id: i32)
        ensures
            final(self).selected_kanji_idx@ == if old(self).selected_kanji_idx@.contains(id) {
                old(self).selected_kanji_idx@
            } else {
                old(self).selected_kanji_idx@.push(id)
            },
            final(self).deck_name_buffer == old(self).deck_name_buffer,
            final(self).search_buffer == old(self).search_buffer,
            final(self).is_editing == old(self).is_editing,
    {
        if !contains_id(&self.selected_kanji_idx, id) {
            self.selected_kanji_idx.push(id);
        }
    }

    /// The remove button of the kanji at `index` of the deck.
    pub fn remove_at(&mut self, index: usize)
        requires
            index < old(self).selected_kanji_idx@.len(),
        ensures
            final(self).selected_kanji_idx@ == old(self).selected_kanji_idx@.remove(index as int),
            final(self).deck_name_buffer == old(self).deck_name_buffer,
            final(self).search_buffer == old(self).search_buffer,
            final(self).is_editing == old(self).is_editing,
    {
        self.selected_kanji_idx.remove(index);
    }

    /// The save button: a deck with a name and some kanji is handed out as
    /// (name, kanji ids) and the builder starts over empty; otherwise
    /// nothing happens.
    pub fn finish(&mut self) -> (res: Option<(String, Vec<i32>)>)
        ensures
            (old(self).deck_name_buffer@.len() > 0 && old(self).selected_kanji_idx@.len() > 0) ==> {
                &&& res matches Some(deck) && deck.0 == old(self).deck_name_buffer && deck.1
                    == old(self).selected_kanji_idx
                &&& final(self).deck_name_buffer@.len() == 0
                &&& final(self).search_buffer@.len() == 0
                &&& final(self).selected_kanji_idx@.len() == 0
                &&& !final(self).is_editing
            },
            !(old(self).deck_name_buffer@.len() > 0 && old(self).selected_kanji_idx@.len() > 0) ==> res
                is None && *final(self) == *old(self),
    {
        if self.deck_name_buffer.as_str().unicode_len() > 0 && self.selected_kanji_idx.len() > 0 {
            let mut done = DeckBuilderState::default();
            std::mem::swap(self, &mut done);
            Some((done.deck_name_buffer, done.selected_kanji_idx))
        } else {
            None
        }
    }
}


/// How many kanji the deck builder offers at most.
pub const DECK_CANDIDATES: usize = 50;

/// The deck builder's search finds a kanji when the search occurs in the
/// kanji or in one of its romaji readings.
pub open spec fn deck_hit(k: Kanji, q: Seq<char>) -> bool {
    occurs_in(q, k.kanji@) || occurs_in(q, k.onyomi_romaji@) || occurs_in(q, k.kunyomi_romaji@)
}

/// The records are copies of the given ones, in the same order.
pub open spec fn copies_of(res: Seq<Kanji>, src: Seq<Arc<Kanji>>) -> bool {
    &&& res.len() == src.len()
    &&& forall|i: int| 0 <= i < res.len() ==> same_record(#[trigger] res[i], *src[i])
}

/// A kanji of the given JLPT level.
pub open spec fn of_level(level: Seq<char>) -> spec_fn(Arc<Kanji>) -> bool {
    |k: Arc<Kanji>| k.jlpt@ == level
}

/// A kanji whose id is among `ids`.
pub open spec fn in_deck(ids: Seq<i32>) -> spec_fn(Arc<Kanji>) -> bool {
    |k: Arc<Kanji>| ids.contains(k.id)
}

/// Copies of the kanji of a JLPT level, in dictionary order: the cards of
/// a level session before shuffling.
pub fn level_kanji(kanji: &Vec<Arc<Kanji>>, level: &str) -> (res: Vec<Kanji>)
    ensures
        copies_of(res@, kanji@.filter(of_level(level@))),
{
    let mut out: Vec<Kanji> = Vec::new();
    let mut i: usize = 0;
    assert(kanji@.subrange(0, 0).filter(of_level(level@)) =~= Seq::<Arc<Kanji>>::empty()) by {
        reveal_with_fuel(Seq::filter, 1);
    }
    while i < kanji.len()
        invariant
            i <= kanji@.len(),
            copies_of(out@, kanji@.subrange(0, i as int).filter(of_level(level@))),
        decreases kanji@.len() - i,
    {
        let ghost prev = kanji@.subrange(0, i as int);
        assert(kanji@.subrange(0, i + 1) =~= prev.push(kanji@[i as int]));
        proof {
            prev.lemma_filter_push(kanji@[i as int], of_level(level@));
        }
        if crate::text::same_text(kanji[i].jlpt.as_str(), level) {
            let c = kanji[i].copy();
            out.push(c);
        }
        i = i + 1;
    }
    assert(kanji@.subrange(0, i as int) =~= kanji@);
    out
}

/// Copies of the kanji whose ids are in the deck, in dictionary order: the
/// cards of a deck session before shuffling.
pub fn deck_kanji(kanji: &Vec<Arc<Kanji>>, ids: &Vec<i32>) -> (res: Vec<Kanji>)
    ensures
        copies_of(res@, kanji@.filter(in_deck(ids@))),
{
    let mut out: Vec<Kanji> = Vec::new();
    let mut i: usize = 0;
    assert(kanji@.subrange(0, 0).filter(in_deck(ids@)) =~= Seq::<Arc<Kanji>>::empty()) by {
        reveal_with_fuel(Seq::filter, 1);
    }
    while i < kanji.len()
        invariant
            i <= kanji@.len(),
            copies_of(out@, kanji@.subrange(0, i as int).filter(in_deck(ids@))),
        decreases kanji@.len() - i,
    {
        let ghost prev = kanji@.subrange(0, i as int);
        assert(kanji@.subrange(0, i + 1) =~= prev.push(kanji@[i as int]));
        proof {
            prev.lemma_filter_push(kanji@[i as int], in_deck(ids@));
        }
        if contains_id(ids, kanji[i].id) {
            let c = kanji[i].copy();
            out.push(c);
        }
        i = i + 1;
    }
    assert(kanji@.subrange(0, i as int) =~= kanji@);
    out
}


/// The deck builder finds a kanji by the kanji itself and by its romaji
/// readings: when the search, lowercased, is not empty and occurs in one
/// of them, the kanji's position is among the offered ones, unless
/// `DECK_CANDIDATES` earlier hits were offered before it. Every offered
/// position is such a kanji, and an empty search offers nothing.
pub proof fn deck_builder_finds_kanji_by_character_or_romaji(
    kanji: Seq<Arc<Kanji>>,
    search: Seq<char>,
    res: Seq<usize>,
    k: int,
)
    requires
        str_lowercase(search).len() == 0 ==> res.len() == 0,
        str_lowercase(search).len() > 0 ==> first_indices_where(
            res,
            kanji.len() as int,
            DECK_CANDIDATES as int,
            |i: int| deck_hit(*kanji[i], str_lowercase(search)),
        ),
    ensures
        ({
            let q = str_lowercase(search);
            q.len() > 0 && 0 <= k < kanji.len() && (occurs_in(q, kanji[k].kanji@) || occurs_in(
                q,
                kanji[k].onyomi_romaji@,
            ) || occurs_in(q, kanji[k].kunyomi_romaji@)) && (res.len() < DECK_CANDIDATES || k
                <= res[res.len() - 1]) ==> res.contains(k as usize)
        }),
        res.len() <= DECK_CANDIDATES,
        forall|a: int|
            0 <= a < res.len() ==> {
                let q = str_lowercase(search);
                let x = kanji[#[trigger] res[a] as int];
                &&& res[a] < kanji.len()
                &&& occurs_in(q, x.kanji@) || occurs_in(q, x.onyomi_romaji@) || occurs_in(
                    q,
                    x.kunyomi_romaji@,
                )
            },
{
    let p = |i: int| deck_hit(*kanji[i], str_lowercase(search));
    if str_lowercase(search).len() > 0 {
        if 0 <= k < kanji.len() {
            assert(p(k) && (res.len() < DECK_CANDIDATES || k <= res[res.len() - 1]) ==> res.contains(
                k as usize,
            ));
        }
        assert forall|a: int| 0 <= a < res.len() implies p(#[trigger] res[a] as int) by {}
    }
}

} // verus!
