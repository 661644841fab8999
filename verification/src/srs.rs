//! The integer side of spaced-repetition scheduling: answer ratings, the
//! study settings, the current day, the daily new-card allowance and the
//! order in which due cards are reviewed.
use vstd::prelude::*;

verus! {

/// Anki-style answer ratings, sent by the frontend as 0 to 3.
#[derive(Clone, Copy, PartialEq, Eq, Debug, Structural)]
pub enum Rating {
    Again,
    Hard,
    Good,
    Easy,
}

impl Rating {
    /// The rating with the given number (0 Again, 1 Hard, 2 Good, 3 Easy);
    /// `None` for any other number.
    pub fn from_u8(v: u8) -> (res: Option<Self>)
        ensures
            v == 0 ==> res == Some(Rating::Again),
            v == 1 ==> res == Some(Rating::Hard),
            v == 2 ==> res == Some(Rating::Good),
            v == 3 ==> res == Some(Rating::Easy),
            v > 3 ==> res is None,
    {
        match v {
            0 => Some(Rating::Again),
            1 => Some(Rating::Hard),
            2 => Some(Rating::Good),
            3 => Some(Rating::Easy),
            _ => None,
        }
    }
}

/// Which JLPT levels new cards come from, and how many new cards a day.
pub struct SrsSettings {
    pub levels: Vec<String>,
    pub new_per_day: u32,
}

impl SrsSettings {
    /// New cards from N5 only, ten a day.
    pub fn default() -> (res: Self)
        ensures
            res.levels@.len() == 1,
            res.levels@[0]@ == "N5"@,
            res.new_per_day == 10,
    {
        let mut levels: Vec<String> = Vec::new();
        levels.push(String::from_str("N5"));
        SrsSettings { levels, new_per_day: 10 }
    }
}

/// Calls `SystemTime::now().duration_since(UNIX_EPOCH)` and returns the
/// whole seconds, or 0 when the clock is before the epoch. The value comes
/// from the system clock; nothing is stated of it.
#[verifier::external_body]
fn seconds_since_epoch() -> (res: u64) {
    std::time::SystemTime::now().duration_since(std::time::UNIX_EPOCH).map(|d| d.as_secs()).unwrap_or(0)
}

/// The UTC day number (days since 1970-01-01) of a moment given in
/// seconds since the epoch.
pub fn epoch_day_of(secs: u64) -> (res: i64)
    ensures
        res as int == secs as int / 86400,
{
    (secs / 86_400) as i64
}

/// Today's UTC day number. It is read from the system clock; whatever the
/// clock says, the result is a day number between 0 and the last day a
/// `u64` of seconds can reach.
pub fn today_epoch_day() -> (res: i64)
    ensures
        0 <= res <= u64::MAX as int / 86400,
{
    let secs = seconds_since_epoch();
    epoch_day_of(secs)
}

/// The daily counter after a study action on `today`: the counter starts
/// again from 0 when the day has changed since `last_study_day`.
pub open spec fn rolled_counter(last_study_day: i64, new_introduced_today: u32, today: i64) -> (
    i64,
    u32,
) {
    if last_study_day != today {
        (today, 0)
    } else {
        (last_study_day, new_introduced_today)
    }
}

/// The last study day and the number of new cards introduced on it,
/// after a study action on `today`.
pub fn roll_day(last_study_day: i64, new_introduced_today: u32, today: i64) -> (res: (i64, u32))
    ensures
        res == rolled_counter(last_study_day, new_introduced_today, today),
{
    if last_study_day != today {
        (today, 0)
    } else {
        (last_study_day, new_introduced_today)
    }
}

/// Rolling the counter is settled by the day alone: a second roll on the
/// same day changes nothing, and after a roll the counter belongs to that day.
pub proof fn rolling_twice_on_one_day_is_rolling_once(
    last_study_day: i64,
    new_introduced_today: u32,
    today: i64,
)
    ensures
        ({
            let once = rolled_counter(last_study_day, new_introduced_today, today);
            &&& rolled_counter(once.0, once.1, today) == once
            &&& once.0 == today
            &&& last_study_day != today ==> once.1 == 0
        }),
{
}

/// How many new cards may still be introduced today: the daily allowance
/// minus those already introduced, and never below zero.
pub fn new_remaining_today(settings: &SrsSettings, new_introduced_today: u32) -> (res: u32)
    ensures
        res == (if settings.new_per_day >= new_introduced_today {
            settings.new_per_day - new_introduced_today
        } else {
            0
        }),
{
    settings.new_per_day.saturating_sub(new_introduced_today)
}

/// What the review order reads of one card: its kanji, whether it is in
/// the learning phase, and the day it is due.
pub struct DueCard {
    pub kanji: String,
    pub learning: bool,
    pub due_day: i64,
}

/// Cards in the learning phase come before review cards; within each
/// group, the earlier due day comes first.
pub open spec fn due_before(a: DueCard, b: DueCard) -> bool {
    (a.learning && !b.learning) || (a.learning == b.learning && a.due_day <= b.due_day)
}

/// The cards in review order: every two of them follow `due_before`.
pub open spec fn in_review_order(s: Seq<DueCard>) -> bool {
    forall|i: int, j: int| 0 <= i < j < s.len() ==> due_before(#[trigger] s[i], #[trigger] s[j])
}

/// A card is due on `today` when its due day is not after it.
pub open spec fn is_due(today: i64) -> spec_fn(DueCard) -> bool {
    |c: DueCard| c.due_day <= today
}

/// The cards due on `today`, in input order.
pub open spec fn due_on(cards: Seq<DueCard>, today: i64) -> Seq<DueCard> {
    cards.filter(is_due(today))
}

/// The kanji of each card.
pub open spec fn kanji_of(cards: Seq<DueCard>) -> Seq<Seq<char>> {
    cards.map_values(|c: DueCard| c.kanji@)
}

/// Inserting `x` into a sorted sequence at the first place whose item does
/// not come before `x` keeps it sorted.
proof fn lemma_insert_sorted(s: Seq<DueCard>, x: DueCard, k: int)
    requires
        in_review_order(s),
        0 <= k <= s.len(),
        forall|i: int| 0 <= i < k ==> due_before(#[trigger] s[i], x),
        forall|i: int| k <= i < s.len() ==> due_before(x, #[trigger] s[i]),
    ensures
        in_review_order(s.insert(k, x)),
{
    let t = s.insert(k, x);
    assert forall|i: int, j: int| 0 <= i < j < t.len() implies due_before(#[trigger] t[i], #[trigger] t[j]) by {
        if j < k {
            assert(t[i] == s[i] && t[j] == s[j]);
        } else if j == k {
            assert(t[i] == s[i]);
        } else if i < k {
            assert(t[i] == s[i] && t[j] == s[j - 1]);
        } else if i == k {
            assert(t[j] == s[j - 1]);
        } else {
            assert(t[i] == s[i - 1] && t[j] == s[j - 1]);
        }
    }
}

/// The kanji due on `today`, learning cards first, then by due day.
/// The cards come in the order the caller found them; cards with the same
/// phase and due day keep that order.
pub fn due_cards(cards: Vec<DueCard>, today: i64) -> (res: Vec<String>)
    ensures
        exists|sorted: Seq<DueCard>|
            #![trigger kanji_of(sorted)]
            sorted.to_multiset() == due_on(cards@, today).to_multiset() && in_review_order(sorted)
                && strings_of(res@) == kanji_of(sorted),
{
    let ghost input = cards@;
    let mut sorted: Vec<DueCard> = Vec::new();
    let mut cards = cards;
    // Take the cards from the back so each one can be moved out.
    let mut rest: Vec<DueCard> = Vec::new();
    while cards.len() > 0
        invariant
            input == cards@ + rest@.reverse(),
        decreases cards.len(),
    {
        let c = cards.pop().unwrap();
        rest.push(c);
        assert(input =~= cards@ + rest@.reverse());
    }
    assert(rest@.reverse() =~= input);
    let ghost taken: Seq<DueCard> = Seq::empty();
    assert(due_on(taken, today) =~= Seq::<DueCard>::empty()) by {
        reveal_with_fuel(Seq::filter, 1);
    }
    while rest.len() > 0
        invariant
            input == taken + rest@.reverse(),
            in_review_order(sorted@),
            sorted@.to_multiset() == due_on(taken, today).to_multiset(),
        decreases rest.len(),
    {
        let c = rest.pop().unwrap();
        proof {
            assert(input =~= taken.push(c) + rest@.reverse());
            assert(taken.push(c).drop_last() =~= taken);
            taken.lemma_filter_push(c, is_due(today));
            taken = taken.push(c);
        }
        if c.due_day <= today {
            // First position whose card does not come before `c`.
            let mut k: usize = 0;
            while k < sorted.len() && (sorted[k].learning == c.learning && sorted[k].due_day
                <= c.due_day || sorted[k].learning && !c.learning)
                invariant
                    k <= sorted@.len(),
                    in_review_order(sorted@),
                    forall|i: int| 0 <= i < k ==> due_before(#[trigger] sorted@[i], c),
                decreases sorted@.len() - k,
            {
                k = k + 1;
            }
            proof {
                assert forall|i: int| k <= i < sorted@.len() implies due_before(c, #[trigger] sorted@[i]) by {
                    if i > k {
                        assert(due_before(sorted@[k as int], sorted@[i]));
                    }
                }
                lemma_insert_sorted(sorted@, c, k as int);
            }
            let ghost before = sorted@;
            sorted.insert(k, c);
            proof {
                assert(sorted@ =~= before.insert(k as int, c));
                vstd::seq_lib::to_multiset_insert(before, k as int, c);
                broadcast use vstd::seq_lib::group_to_multiset_ensures;
            }
        }
    }
    assert(taken =~= input);
    let mut out: Vec<String> = Vec::new();
    let mut i: usize = 0;
    while i < sorted.len()
        invariant
            i <= sorted@.len(),
            strings_of(out@) == kanji_of(sorted@.subrange(0, i as int)),
        decreases sorted@.len() - i,
    {
        let ghost before = out@;
        let k = sorted[i].kanji.clone();
        out.push(k);
        assert(strings_of(out@) =~= strings_of(before).push(sorted@[i as int].kanji@));
        assert(kanji_of(sorted@.subrange(0, i + 1)) =~= kanji_of(sorted@.subrange(0, i as int)).push(
            sorted@[i as int].kanji@,
        ));
        i = i + 1;
    }
    assert(sorted@.subrange(0, i as int) =~= sorted@);
    out
}

/// The view of each string of a sequence.
pub open spec fn strings_of(v: Seq<String>) -> Seq<Seq<char>> {
    v.map_values(|s: String| s@)
}

} // verus!
