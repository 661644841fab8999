//! Interface languages stored as TOML: the document's `[local]` table is
//! flattened into `section.key` paths mapped to their texts.
use vstd::prelude::*;

use crate::text_map::TextMap;

verus! {

/// A TOML value as the flattening reads it: a table of named values, a
/// string, or anything else (numbers, booleans, arrays, dates).
pub enum TomlValue {
    Table(Vec<(String, TomlValue)>),
    Str(String),
    Other,
}

/// The key of an entry under `prefix`: the entry's own name at the top,
/// `prefix.name` below it.
pub open spec fn dotted(prefix: Seq<char>, name: Seq<char>) -> Seq<char> {
    if prefix.len() == 0 {
        name
    } else {
        prefix + seq!['.'] + name
    }
}

/// The (path, text) pairs that a value yields under `prefix`, in table
/// order: every string, at the dotted path of the tables leading to it.
pub open spec fn flat_pairs(v: TomlValue, prefix: Seq<char>) -> Seq<(Seq<char>, Seq<char>)>
    decreases v, 1int,
{
    match v {
        TomlValue::Table(entries) => flat_entries(entries@, prefix, entries@.len() as int),
        TomlValue::Str(s) => seq![(prefix, s@)],
        TomlValue::Other => Seq::empty(),
    }
}

/// The pairs that the first `n` entries of a table yield under `prefix`.
pub open spec fn flat_entries(entries: Seq<(String, TomlValue)>, prefix: Seq<char>, n: int) -> Seq<
    (Seq<char>, Seq<char>),
>
    decreases entries, n,
{
    if n <= 0 || n > entries.len() {
        Seq::empty()
    } else {
        flat_entries(entries, prefix, n - 1) + flat_pairs(
            entries[n - 1].1,
            dotted(prefix, entries[n - 1].0@),
        )
    }
}

/// A map with the pairs inserted in order.
pub open spec fn insert_all(m: Map<Seq<char>, Seq<char>>, pairs: Seq<(Seq<char>, Seq<char>)>) -> Map<
    Seq<char>,
    Seq<char>,
>
    decreases pairs.len(),
{
    if pairs.len() == 0 {
        m
    } else {
        insert_all(m, pairs.drop_last()).insert(pairs.last().0, pairs.last().1)
    }
}

proof fn lemma_insert_all_concat(
    m: Map<Seq<char>, Seq<char>>,
    a: Seq<(Seq<char>, Seq<char>)>,
    b: Seq<(Seq<char>, Seq<char>)>,
)
    ensures
        insert_all(m, a + b) == insert_all(insert_all(m, a), b),
    decreases b.len(),
{
    if b.len() == 0 {
        assert(a + b =~= a);
    } else {
        assert((a + b).drop_last() =~= a + b.drop_last());
        lemma_insert_all_concat(m, a, b.drop_last());
    }
}

/// The key of an entry under `prefix`.
fn dotted_key(prefix: &str, name: &String) -> (res: String)
    ensures
        res@ == dotted(prefix@, name@),
{
    if prefix.unicode_len() == 0 {
        name.clone()
    } else {
        let mut key = String::from_str(prefix);
        crate::text::push_char(&mut key, '.');
        key.append(name.as_str());
        key
    }
}

/// Adds every string of `value` to `out` under its dotted path below
/// `prefix`; other values are skipped. A later path replaces an equal one.
pub fn flatten(value: &TomlValue, prefix: &str, out: &mut TextMap<String>)
    ensures
        final(out)@ == insert_all(old(out)@, flat_pairs(*value, prefix@)),
{
    let mut taken: TextMap<String> = TextMap::new();
    std::mem::swap(out, &mut taken);
    let filled = flatten_into(value, prefix, taken);
    *out = filled;
}

/// `out` with every string of `value` added under its dotted path below
/// `prefix`.
fn flatten_into(value: &TomlValue, prefix: &str, out: TextMap<String>) -> (res: TextMap<String>)
    ensures
        res@ == insert_all(out@, flat_pairs(*value, prefix@)),
    decreases value, 1int,
{
    match value {
        TomlValue::Table(table) => {
            proof {
                assert(decreases_to!(*value => (*value)->Table_0));
                assert(decreases_to!(*table => table@));
            }
            flatten_entries(table, prefix, out, table.len())
        },
        TomlValue::Str(s) => {
            let ghost old_out = out@;
            let mut out = out;
            let text = s.clone();
            out.insert(String::from_str(prefix), text);
            let ghost p = flat_pairs(*value, prefix@);
            assert(p == seq![(prefix@, s@)]);
            assert(p.drop_last() =~= Seq::<(Seq<char>, Seq<char>)>::empty());
            assert(insert_all(old_out, p.drop_last()) == old_out);
            out
        },
        TomlValue::Other => out,
    }
}

/// `out` with the strings of the first `n` entries of a table added.
fn flatten_entries(
    table: &Vec<(String, TomlValue)>,
    prefix: &str,
    out: TextMap<String>,
    n: usize,
) -> (res: TextMap<String>)
    requires
        n <= table@.len(),
    ensures
        res@ == insert_all(out@, flat_entries(table@, prefix@, n as int)),
    decreases table@, n as int,
{
    if n == 0 {
        return out;
    }
    let before = flatten_entries(table, prefix, out, n - 1);
    let (k, v) = &table[n - 1];
    let key = dotted_key(prefix, k);
    proof {
        assert(decreases_to!(table@ => table@[n - 1]));
        assert(decreases_to!(table@[n - 1] => table@[n - 1].1));
        lemma_insert_all_concat(out@, flat_entries(table@, prefix@, n - 1), flat_pairs(*v, key@));
    }
    flatten_into(v, key.as_str(), before)
}

/// The toml crate's parsed value, carried through unseen.
#[verifier::external_type_specification]
#[verifier::external_body]
pub struct ExTomlValue(toml::Value);

/// What `toml::from_str::<toml::Value>` makes of a text: the document as a
/// tree of tables, strings and other values, or `None` when it is not
/// valid TOML.
pub uninterp spec fn toml_document(text: Seq<char>) -> Option<TomlValue>;

/// Calls `toml::from_str::<toml::Value>` and turns the value into a
/// `TomlValue`. The result is named `toml_document` of the text; what that
/// is, is the toml crate's parsing and is not stated here.
#[verifier::external_body]
pub(crate) fn parse_toml(text: &str) -> (res: Option<TomlValue>)
    ensures
        res == toml_document(text@),
{
    toml::from_str::<toml::Value>(text).ok().map(|v| from_toml(&v))
}

/// Turns a `toml::Value` into a `TomlValue`: a table keeps its entries in
/// the order the toml crate iterates them, a string its text, and every
/// other value becomes `Other`. Nothing is stated of the result.
#[verifier::external_body]
fn from_toml(v: &toml::Value) -> TomlValue {
    match v {
        toml::Value::Table(t) => TomlValue::Table(t.iter().map(|(k, v)| (k.clone(), from_toml(v))).collect()),
        toml::Value::String(s) => TomlValue::Str(s.clone()),
        _ => TomlValue::Other,
    }
}

/// The value of the first entry called `name` of a table; `None` for a
/// value that is not a table or has no such entry.
pub open spec fn table_get(v: TomlValue, name: Seq<char>) -> Option<TomlValue> {
    match v {
        TomlValue::Table(entries) => entry_named(entries@, name, 0),
        _ => None,
    }
}

/// The value of the first of `entries[i..]` called `name`.
pub open spec fn entry_named(entries: Seq<(String, TomlValue)>, name: Seq<char>, i: int) -> Option<
    TomlValue,
>
    decreases entries.len() - i,
{
    if i < 0 || i >= entries.len() {
        None
    } else if entries[i].0@ == name {
        Some(entries[i].1)
    } else {
        entry_named(entries, name, i + 1)
    }
}

/// The value called `name` in a table.
pub fn get_entry<'a>(value: &'a TomlValue, name: &str) -> (res: Option<&'a TomlValue>)
    ensures
        match res {
            Some(v) => table_get(*value, name@) == Some(*v),
            None => table_get(*value, name@) is None,
        },
{
    match value {
        TomlValue::Table(entries) => {
            let mut i: usize = 0;
            while i < entries.len()
                invariant
                    i <= entries@.len(),
                    table_get(*value, name@) == entry_named(entries@, name@, i as int),
                    *value == TomlValue::Table(*entries),
                decreases entries@.len() - i,
            {
                if crate::text::same_text(entries[i].0.as_str(), name) {
                    return Some(&entries[i].1);
                }
                i = i + 1;
            }
            None
        },
        _ => None,
    }
}

/// The texts of a language file: its `[local]` table flattened into
/// `section.key` paths (empty when there is no such table). `None` when
/// the file is not valid TOML.
pub open spec fn language_texts_of(content: Seq<char>) -> Option<Map<Seq<char>, Seq<char>>> {
    match toml_document(content) {
        None => None,
        Some(doc) => Some(
            match table_get(doc, "local"@) {
                Some(local) => insert_all(Map::empty(), flat_pairs(local, Seq::empty())),
                None => Map::empty(),
            },
        ),
    }
}

/// The texts of a language file as `section.key` paths, from the text of
/// the file; `None` when it is not valid TOML.
pub fn language_texts(content: &str) -> (res: Option<TextMap<String>>)
    ensures
        match res {
            Some(m) => language_texts_of(content@) == Some(m@),
            None => language_texts_of(content@) is None,
        },
{
    let doc = match parse_toml(content) {
        Some(doc) => doc,
        None => return None,
    };
    let mut out: TextMap<String> = TextMap::new();
    proof {
        reveal_strlit("");
        assert(""@ =~= Seq::<char>::empty());
    }
    if let Some(local) = get_entry(&doc, "local") {
        flatten(local, "", &mut out);
    }
    Some(out)
}

/// The position of the last `.` of `s`, or -1 when there is none.
pub open spec fn last_dot(s: Seq<char>) -> int
    decreases s.len(),
{
    if s.len() == 0 {
        -1
    } else if s.last() == '.' {
        s.len() - 1
    } else {
        last_dot(s.drop_last())
    }
}

/// The language a file name stands for: the stem of a name with the
/// extension `toml` (text after the last `.`, where that `.` is not the
/// first char), as `Path::extension` and `Path::file_stem` split it.
pub open spec fn toml_stem(name: Seq<char>) -> Option<Seq<char>> {
    let k = last_dot(name);
    if k > 0 && name.skip(k + 1) == "toml"@ {
        Some(name.take(k))
    } else {
        None
    }
}

/// The languages among the file names, in the order of the names.
pub open spec fn stems(names: Seq<Seq<char>>) -> Seq<Seq<char>>
    decreases names.len(),
{
    if names.len() == 0 {
        Seq::empty()
    } else {
        stems(names.drop_last()) + match toml_stem(names.last()) {
            Some(s) => seq![s],
            None => Seq::empty(),
        }
    }
}

/// `a` comes before `b` or equals it, comparing code points from the
/// first char on, a proper prefix first (the order of `String`'s `Ord`).
pub open spec fn text_le(a: Seq<char>, b: Seq<char>) -> bool
    decreases a.len(),
{
    if a.len() == 0 {
        true
    } else if b.len() == 0 {
        false
    } else if a[0] != b[0] {
        a[0] < b[0]
    } else {
        text_le(a.drop_first(), b.drop_first())
    }
}

/// Every two strings of `s` are in `text_le` order.
pub open spec fn sorted_texts(s: Seq<Seq<char>>) -> bool {
    forall|i: int, j: int| 0 <= i < j < s.len() ==> text_le(#[trigger] s[i], #[trigger] s[j])
}

pub(crate) proof fn lemma_text_le_total(a: Seq<char>, b: Seq<char>)
    ensures
        text_le(a, b) || text_le(b, a),
    decreases a.len(),
{
    if a.len() > 0 && b.len() > 0 {
        if a[0] == b[0] {
            lemma_text_le_total(a.drop_first(), b.drop_first());
        }
    }
}

pub(crate) proof fn lemma_text_le_trans(a: Seq<char>, b: Seq<char>, c: Seq<char>)
    requires
        text_le(a, b),
        text_le(b, c),
    ensures
        text_le(a, c),
    decreases a.len(),
{
    if a.len() > 0 && b.len() > 0 && c.len() > 0 && a[0] == b[0] && b[0] == c[0] {
        lemma_text_le_trans(a.drop_first(), b.drop_first(), c.drop_first());
    }
}

/// Whether `a` comes before `b` or equals it, in `text_le` order.
fn text_le_exec(a: &Vec<char>, b: &Vec<char>) -> (res: bool)
    ensures
        res == text_le(a@, b@),
{
    let mut i: usize = 0;
    assert(a@.skip(0) =~= a@);
    assert(b@.skip(0) =~= b@);
    while i < a.len() && i < b.len() && a[i] == b[i]
        invariant
            i <= a@.len(),
            i <= b@.len(),
            text_le(a@, b@) == text_le(a@.skip(i as int), b@.skip(i as int)),
        decreases a@.len() - i,
    {
        assert(a@.skip(i as int).drop_first() =~= a@.skip(i + 1));
        assert(b@.skip(i as int).drop_first() =~= b@.skip(i + 1));
        i = i + 1;
    }
    if i == a.len() {
        true
    } else if i == b.len() {
        false
    } else {
        a[i] < b[i]
    }
}

/// Whether `a` comes before `b` or equals it, in `text_le` order.
pub(crate) fn text_le_str(a: &str, b: &Vec<char>) -> (res: bool)
    ensures
        res == text_le(a@, b@),
{
    let x = crate::text::chars_of(a);
    text_le_exec(&x, b)
}

/// The language of a file name, if it names a TOML file.
pub fn file_language(name: &str) -> (res: Option<String>)
    ensures
        match res {
            Some(s) => toml_stem(name@) == Some(s@),
            None => toml_stem(name@) is None,
        },
{
    let chars = crate::text::chars_of(name);
    let n = chars.len();
    let mut k: usize = n;
    assert(name@.take(n as int) =~= name@);
    while k > 0 && chars[k - 1] != '.'
        invariant
            chars@ == name@,
            k <= n == name@.len(),
            last_dot(name@) == last_dot(name@.take(k as int)),
        decreases k,
    {
        assert(name@.take(k as int).drop_last() =~= name@.take(k - 1));
        k = k - 1;
    }
    proof {
        if k == 0 {
            assert(name@.take(0) =~= Seq::<char>::empty());
        } else {
            assert(name@.take(k as int).last() == '.');
        }
    }
    if k <= 1 {
        return None;
    }
    let ext = crate::text::string_from_chars(&chars, k, n);
    assert(ext@ =~= name@.skip(k as int));
    if !crate::text::same_text(ext.as_str(), "toml") {
        return None;
    }
    let stem = crate::text::string_from_chars(&chars, 0, k - 1);
    assert(stem@ =~= name@.take(k - 1));
    Some(stem)
}

/// The views of strings.
pub open spec fn views(v: Seq<String>) -> Seq<Seq<char>> {
    v.map_values(|s: String| s@)
}

/// The interface languages among the files of the localization folder:
/// one per `<Name>.toml` file, named `<Name>`, sorted.
pub fn language_names(file_names: &Vec<String>) -> (res: Vec<String>)
    ensures
        sorted_texts(views(res@)),
        views(res@).to_multiset() == stems(views(file_names@)).to_multiset(),
{
    let mut out: Vec<String> = Vec::new();
    let mut i: usize = 0;
    assert(views(file_names@.subrange(0, 0)) =~= Seq::<Seq<char>>::empty());
    assert(views(out@) =~= Seq::<Seq<char>>::empty());
    while i < file_names.len()
        invariant
            i <= file_names@.len(),
            sorted_texts(views(out@)),
            views(out@).to_multiset() == stems(views(file_names@.subrange(0, i as int))).to_multiset(),
        decreases file_names@.len() - i,
    {
        let ghost prev = stems(views(file_names@.subrange(0, i as int)));
        proof {
            assert(views(file_names@.subrange(0, i + 1)).drop_last() =~= views(
                file_names@.subrange(0, i as int),
            ));
            assert(views(file_names@.subrange(0, i + 1)).last() == file_names@[i as int]@);
        }
        if let Some(stem) = file_language(file_names[i].as_str()) {
            let key = crate::text::chars_of(stem.as_str());
            let mut k: usize = 0;
            while k < out.len() && text_le_str(out[k].as_str(), &key)
                invariant
                    k <= out@.len(),
                    key@ == stem@,
                    sorted_texts(views(out@)),
                    forall|a: int| 0 <= a < k ==> text_le(#[trigger] views(out@)[a], stem@),
                decreases out@.len() - k,
            {
                k = k + 1;
            }
            proof {
                let vs = views(out@);
                assert forall|a: int| k <= a < vs.len() implies text_le(stem@, #[trigger] vs[a]) by {
                    lemma_text_le_total(vs[k as int], stem@);
                    if a > k {
                        lemma_text_le_trans(stem@, vs[k as int], vs[a]);
                    }
                }
            }
            let ghost before = views(out@);
            out.insert(k, stem);
            proof {
                let vs = views(out@);
                assert(vs =~= before.insert(k as int, stem@));
                assert forall|a: int, b: int| 0 <= a < b < vs.len() implies text_le(#[trigger] vs[a], #[trigger] vs[b]) by {
                    if b < k {
                        assert(vs[a] == before[a] && vs[b] == before[b]);
                    } else if b == k {
                        assert(vs[a] == before[a]);
                    } else if a < k {
                        assert(vs[a] == before[a] && vs[b] == before[b - 1]);
                        lemma_text_le_trans(before[a], stem@, before[b - 1]);
                    } else if a == k {
                        assert(vs[b] == before[b - 1]);
                    } else {
                        assert(vs[a] == before[a - 1] && vs[b] == before[b - 1]);
                    }
                }
                vstd::seq_lib::to_multiset_insert(before, k as int, stem@);
                broadcast use vstd::seq_lib::group_to_multiset_ensures;
                vstd::seq_lib::lemma_multiset_commutative(prev, seq![stem@]);
                assert(seq![stem@].to_multiset() =~= vstd::multiset::Multiset::empty().insert(stem@));
            }
        } else {
            proof {
                assert(prev + Seq::<Seq<char>>::empty() =~= prev);
            }
        }
        i = i + 1;
    }
    assert(file_names@.subrange(0, i as int) =~= file_names@);
    out
}

} // verus!
