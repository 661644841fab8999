//! Character and string primitives that the rest of the library builds on:
//! the few std calls that vstd gives no specification, each behind a small
//! trusted wrapper, and the spec functions that describe them.
use vstd::prelude::*;

verus! {

/// `c` is one of the ASCII letters `A..=Z` or `a..=z`.
pub open spec fn is_ascii_letter(c: char) -> bool {
    ('A' <= c && c <= 'Z') || ('a' <= c && c <= 'z')
}

/// `c` with `A..=Z` mapped to `a..=z`; every other char unchanged.
pub open spec fn ascii_lower(c: char) -> char {
    if 'A' <= c && c <= 'Z' {
        ((c as u32) + 32) as char
    } else {
        c
    }
}

/// Every char of `s` is ASCII.
pub open spec fn all_ascii(s: Seq<char>) -> bool {
    forall|i: int| 0 <= i < s.len() ==> (s[i] as u32) < 128
}

/// `s` with each ASCII capital letter replaced by its small letter.
pub open spec fn ascii_lower_seq(s: Seq<char>) -> Seq<char> {
    s.map_values(|c: char| ascii_lower(c))
}

/// What `str::to_lowercase` returns for a string: its Unicode lowercase
/// mapping (Unicode's `Lowercase_Mapping`, with the final-sigma rule).
pub uninterp spec fn str_lowercase(s: Seq<char>) -> Seq<char>;

/// Calls `str::to_lowercase`. Its result is named `str_lowercase` of the
/// argument; on an all-ASCII argument it is the argument with `A..=Z`
/// mapped to `a..=z` and every other char unchanged. What it does to
/// non-ASCII chars is left to the name.
#[verifier::external_body]
pub(crate) fn lowercase(s: &str) -> (res: String)
    ensures
        res@ == str_lowercase(s@),
        all_ascii(s@) ==> res@ == ascii_lower_seq(s@),
{
    s.to_lowercase()
}

/// Calls `String::push`: appends one char at the end.
#[verifier::external_body]
pub(crate) fn push_char(s: &mut String, c: char)
    ensures
        final(s)@ == old(s)@.push(c),
{
    s.push(c);
}

/// Calls `char::to_ascii_lowercase`: ASCII capitals become small letters,
/// every other char is returned unchanged.
#[verifier::external_body]
pub(crate) fn char_to_ascii_lowercase(c: char) -> (res: char)
    ensures
        res == ascii_lower(c),
{
    c.to_ascii_lowercase()
}

/// Calls `char::is_ascii_alphabetic`: true exactly for `A..=Z` and `a..=z`.
#[verifier::external_body]
pub(crate) fn char_is_ascii_alphabetic(c: char) -> (res: bool)
    ensures
        res == is_ascii_letter(c),
{
    c.is_ascii_alphabetic()
}

/// The chars of `s`, in order, as a vector.
pub fn chars_of(s: &str) -> (res: Vec<char>)
    ensures
        res@ == s@,
{
    let n = s.unicode_len();
    let mut out: Vec<char> = Vec::new();
    let mut i: usize = 0;
    while i < n
        invariant
            n == s@.len(),
            i <= n,
            out@ == s@.subrange(0, i as int),
        decreases n - i,
    {
        out.push(s.get_char(i));
        i = i + 1;
    }
    assert(out@ =~= s@);
    out
}

/// A string made of the chars `chars[from..to]`.
pub fn string_from_chars(chars: &Vec<char>, from: usize, to: usize) -> (res: String)
    requires
        from <= to <= chars@.len(),
    ensures
        res@ == chars@.subrange(from as int, to as int),
{
    let mut out = String::new();
    let mut i = from;
    while i < to
        invariant
            from <= i <= to,
            to <= chars@.len(),
            out@ == chars@.subrange(from as int, i as int),
        decreases to - i,
    {
        push_char(&mut out, chars[i]);
        assert(chars@.subrange(from as int, i + 1) =~= chars@.subrange(from as int, i as int).push(chars@[i as int]));
        i = i + 1;
    }
    out
}

/// Unicode's `White_Space` property: the chars that `char::is_whitespace`
/// accepts and at which `str::split_whitespace` splits.
pub open spec fn is_white_space(c: char) -> bool {
    let u = c as u32;
    (0x9 <= u && u <= 0xd) || u == 0x20 || u == 0x85 || u == 0xa0 || u == 0x1680 || (0x2000 <= u
        && u <= 0x200a) || u == 0x2028 || u == 0x2029 || u == 0x202f || u == 0x205f || u == 0x3000
}

/// Calls `char::is_whitespace`: true exactly for the chars with Unicode's
/// `White_Space` property (U+0009..=U+000D, U+0020, U+0085, U+00A0,
/// U+1680, U+2000..=U+200A, U+2028, U+2029, U+202F, U+205F, U+3000).
#[verifier::external_body]
pub(crate) fn char_is_whitespace(c: char) -> (res: bool)
    ensures
        res == is_white_space(c),
{
    c.is_whitespace()
}

/// The words of `s[i..]` given the word `cur` read so far: the maximal
/// runs of chars that are not white space, in order.
pub open spec fn words_from(s: Seq<char>, i: int, cur: Seq<char>) -> Seq<Seq<char>>
    decreases s.len() - i,
{
    if i < 0 || i >= s.len() {
        if cur.len() > 0 {
            seq![cur]
        } else {
            Seq::empty()
        }
    } else if is_white_space(s[i]) {
        (if cur.len() > 0 {
            seq![cur]
        } else {
            Seq::empty()
        }) + words_from(s, i + 1, Seq::empty())
    } else {
        words_from(s, i + 1, cur.push(s[i]))
    }
}

/// The words of `s`, as `str::split_whitespace` yields them.
pub open spec fn words(s: Seq<char>) -> Seq<Seq<char>> {
    words_from(s, 0, Seq::empty())
}

/// The parts joined with `sep` between each two of them.
pub open spec fn join(parts: Seq<Seq<char>>, sep: Seq<char>) -> Seq<char>
    decreases parts.len(),
{
    if parts.len() == 0 {
        Seq::empty()
    } else if parts.len() == 1 {
        parts[0]
    } else {
        join(parts.drop_last(), sep) + sep + parts.last()
    }
}

/// No char of `s` is white space.
pub open spec fn no_white_space(s: Seq<char>) -> bool {
    forall|i: int| 0 <= i < s.len() ==> !is_white_space(#[trigger] s[i])
}

/// The words of a string, as `split_whitespace` yields them.
pub fn split_words(s: &str) -> (res: Vec<String>)
    ensures
        res@.map_values(|w: String| w@) == words(s@),
{
    let chars = chars_of(s);
    let n = chars.len();
    let mut out: Vec<String> = Vec::new();
    let mut cur = String::new();
    let mut i: usize = 0;
    while i < n
        invariant
            chars@ == s@,
            n == s@.len(),
            i <= n,
            out@.map_values(|w: String| w@) + words_from(s@, i as int, cur@) == words(s@),
        decreases n - i,
    {
        let c = chars[i];
        let ghost before = out@.map_values(|w: String| w@);
        let ghost old_cur = cur@;
        if char_is_whitespace(c) {
            if cur.unicode_len() > 0 {
                let done = cur;
                cur = String::new();
                out.push(done);
                assert(out@.map_values(|w: String| w@) =~= before.push(old_cur));
            } else {
                assert(old_cur =~= Seq::<char>::empty());
            }
        } else {
            push_char(&mut cur, c);
        }
        assert(c == s@[i as int]);
        assert(words_from(s@, i as int, old_cur) == if is_white_space(c) {
            (if old_cur.len() > 0 {
                seq![old_cur]
            } else {
                Seq::empty()
            }) + words_from(s@, i + 1, Seq::empty())
        } else {
            words_from(s@, i + 1, old_cur.push(c))
        });
        i = i + 1;
        assert(out@.map_values(|w: String| w@) + words_from(s@, i as int, cur@) =~= before
            + words_from(s@, i - 1, old_cur));
    }
    if cur.unicode_len() > 0 {
        out.push(cur);
    }
    assert(out@.map_values(|w: String| w@) =~= words(s@));
    out
}

/// The strings joined with `sep` between each two of them.
pub fn join_strings(parts: &Vec<String>, sep: &str) -> (res: String)
    ensures
        res@ == join(parts@.map_values(|w: String| w@), sep@),
{
    let mut out = String::new();
    let mut i: usize = 0;
    let ghost ps = parts@.map_values(|w: String| w@);
    while i < parts.len()
        invariant
            ps == parts@.map_values(|w: String| w@),
            i <= parts.len(),
            out@ == join(ps.subrange(0, i as int), sep@),
        decreases parts.len() - i,
    {
        if i > 0 {
            out.append(sep);
        }
        out.append(parts[i].as_str());
        assert(ps.subrange(0, i + 1).drop_last() =~= ps.subrange(0, i as int));
        i = i + 1;
    }
    assert(ps.subrange(0, i as int) =~= ps);
    out
}

/// Every word of `s` is non-empty and holds no white space.
pub proof fn lemma_words_are_clean(s: Seq<char>)
    ensures
        forall|k: int| 0 <= k < words(s).len() ==> #[trigger] words(s)[k].len() > 0 && no_white_space(words(s)[k]),
{
    lemma_words_from_clean(s, 0, Seq::empty());
}

proof fn lemma_words_from_clean(s: Seq<char>, i: int, cur: Seq<char>)
    requires
        no_white_space(cur),
    ensures
        forall|k: int|
            0 <= k < words_from(s, i, cur).len() ==> #[trigger] words_from(s, i, cur)[k].len() > 0
                && no_white_space(words_from(s, i, cur)[k]),
    decreases s.len() - i,
{
    if i < 0 || i >= s.len() {
        if cur.len() > 0 {
            assert(words_from(s, i, cur) == seq![cur]);
        }
    } else if is_white_space(s[i]) {
        lemma_words_from_clean(s, i + 1, Seq::empty());
        let head: Seq<Seq<char>> = if cur.len() > 0 { seq![cur] } else { Seq::empty() };
        let rest = words_from(s, i + 1, Seq::empty());
        assert forall|k: int| 0 <= k < (head + rest).len() implies #[trigger] (head + rest)[k].len() > 0
            && no_white_space((head + rest)[k]) by {
            if k >= head.len() {
                assert((head + rest)[k] == rest[k - head.len()]);
            }
        }
    } else {
        assert(no_white_space(cur.push(s[i])));
        lemma_words_from_clean(s, i + 1, cur.push(s[i]));
        assert(words_from(s, i, cur) == words_from(s, i + 1, cur.push(s[i])));
    }
}

/// A non-empty string without white space is a single word; the empty
/// string has none.
pub proof fn lemma_words_of_clean(s: Seq<char>)
    requires
        no_white_space(s),
    ensures
        s.len() > 0 ==> words(s) == seq![s],
        s.len() == 0 ==> words(s) == Seq::<Seq<char>>::empty(),
{
    assert(s.subrange(0, 0) =~= Seq::<char>::empty());
    lemma_words_of_clean_from(s, 0);
    assert(s.subrange(0, s.len() as int) =~= s);
}

proof fn lemma_words_of_clean_from(s: Seq<char>, i: int)
    requires
        no_white_space(s),
        0 <= i <= s.len(),
    ensures
        s.len() > 0 ==> words_from(s, i, s.subrange(0, i)) == seq![s.subrange(0, s.len() as int)],
        s.len() == 0 ==> words_from(s, i, s.subrange(0, i)) == Seq::<Seq<char>>::empty(),
    decreases s.len() - i,
{
    if i < s.len() {
        assert(s.subrange(0, i).push(s[i]) =~= s.subrange(0, i + 1));
        lemma_words_of_clean_from(s, i + 1);
    }
}

/// Parts without white space, joined with a separator without white
/// space, give a string without white space; it is non-empty when the
/// parts are non-empty and there is at least one.
pub proof fn lemma_join_clean(parts: Seq<Seq<char>>, sep: Seq<char>)
    requires
        no_white_space(sep),
        forall|k: int| 0 <= k < parts.len() ==> #[trigger] parts[k].len() > 0 && no_white_space(parts[k]),
    ensures
        no_white_space(join(parts, sep)),
        parts.len() > 0 ==> join(parts, sep).len() > 0,
    decreases parts.len(),
{
    if parts.len() > 1 {
        let init = parts.drop_last();
        assert forall|k: int| 0 <= k < init.len() implies #[trigger] init[k].len() > 0 && no_white_space(init[k]) by {
            assert(init[k] == parts[k]);
        }
        lemma_join_clean(init, sep);
        let a = join(init, sep);
        let b = parts.last();
        assert(parts[parts.len() - 1].len() > 0 && no_white_space(parts[parts.len() - 1]));
        assert forall|i: int| 0 <= i < (a + sep + b).len() implies !is_white_space(#[trigger] (a + sep + b)[i]) by {
            if i < a.len() {
                assert((a + sep + b)[i] == a[i]);
            } else if i < a.len() + sep.len() {
                assert((a + sep + b)[i] == sep[i - a.len()]);
            } else {
                assert((a + sep + b)[i] == b[i - a.len() - sep.len()]);
            }
        }
    } else if parts.len() == 1 {
        assert(parts[0].len() > 0 && no_white_space(parts[0]));
    }
}

/// The decimal digit for `d` (0 to 9).
pub open spec fn digit_char(d: int) -> char {
    ((48 + d) as u32) as char
}

/// The decimal digits of a natural number, most significant first.
pub open spec fn decimal_digits(n: nat) -> Seq<char>
    decreases n,
{
    if n < 10 {
        seq![digit_char(n as int)]
    } else {
        decimal_digits(n / 10).push(digit_char((n % 10) as int))
    }
}

/// An integer written in decimal, with a leading `-` when negative.
pub open spec fn decimal(n: int) -> Seq<char> {
    if n < 0 {
        seq!['-'] + decimal_digits((-n) as nat)
    } else {
        decimal_digits(n as nat)
    }
}

/// Calls `i32::to_string`: an integer's `Display` form, its decimal
/// digits with a leading `-` when negative.
#[verifier::external_body]
pub(crate) fn i32_to_string(n: i32) -> (res: String)
    ensures
        res@ == decimal(n as int),
{
    n.to_string()
}

/// Calls `u64::to_string`: the number's decimal digits.
#[verifier::external_body]
pub(crate) fn u64_to_string(n: u64) -> (res: String)
    ensures
        res@ == decimal(n as int),
{
    n.to_string()
}

/// Copies of the strings, in order.
pub fn copy_strings(v: &Vec<String>) -> (res: Vec<String>)
    ensures
        res@ == v@,
{
    let mut out: Vec<String> = Vec::new();
    let mut i: usize = 0;
    while i < v.len()
        invariant
            i <= v.len(),
            out@ == v@.subrange(0, i as int),
        decreases v.len() - i,
    {
        out.push(v[i].clone());
        assert(out@ =~= v@.subrange(0, i + 1));
        i = i + 1;
    }
    assert(out@ =~= v@);
    out
}

/// The two strings hold the same chars.
pub fn same_text(a: &str, b: &str) -> (res: bool)
    ensures
        res == (a@ == b@),
{
    let x = chars_of(a);
    let y = chars_of(b);
    if x.len() != y.len() {
        return false;
    }
    let mut i: usize = 0;
    while i < x.len()
        invariant
            x@ == a@,
            y@ == b@,
            x@.len() == y@.len(),
            i <= x@.len(),
            x@.subrange(0, i as int) == y@.subrange(0, i as int),
        decreases x@.len() - i,
    {
        if x[i] != y[i] {
            assert(x@.subrange(0, i + 1)[i as int] != y@.subrange(0, i + 1)[i as int]);
            return false;
        }
        assert(x@.subrange(0, i + 1) =~= x@.subrange(0, i as int).push(x@[i as int]));
        assert(y@.subrange(0, i + 1) =~= y@.subrange(0, i as int).push(y@[i as int]));
        i = i + 1;
    }
    assert(x@ =~= x@.subrange(0, i as int));
    assert(y@ =~= y@.subrange(0, i as int));
    true
}

/// The number of white-space chars at the start of `s`.
pub open spec fn leading_white(s: Seq<char>) -> nat
    decreases s.len(),
{
    if s.len() > 0 && is_white_space(s[0]) {
        1 + leading_white(s.drop_first())
    } else {
        0
    }
}

/// The number of white-space chars at the end of `s`.
pub open spec fn trailing_white(s: Seq<char>) -> nat
    decreases s.len(),
{
    if s.len() > 0 && is_white_space(s.last()) {
        1 + trailing_white(s.drop_last())
    } else {
        0
    }
}

/// `s` without its leading and trailing white space, as `str::trim` gives it.
pub open spec fn trimmed(s: Seq<char>) -> Seq<char> {
    let t = s.skip(leading_white(s) as int);
    t.take(t.len() - trailing_white(t))
}

proof fn lemma_leading_white_bound(s: Seq<char>)
    ensures
        leading_white(s) <= s.len(),
    decreases s.len(),
{
    if s.len() > 0 && is_white_space(s[0]) {
        lemma_leading_white_bound(s.drop_first());
    }
}

proof fn lemma_trailing_white_bound(s: Seq<char>)
    ensures
        trailing_white(s) <= s.len(),
    decreases s.len(),
{
    if s.len() > 0 && is_white_space(s.last()) {
        lemma_trailing_white_bound(s.drop_last());
    }
}

/// `s` without leading and trailing white space.
pub fn trim(s: &str) -> (res: String)
    ensures
        res@ == trimmed(s@),
{
    let chars = chars_of(s);
    let n = chars.len();
    let mut start: usize = 0;
    assert(s@.skip(0) =~= s@);
    while start < n && char_is_whitespace(chars[start])
        invariant
            chars@ == s@,
            n == s@.len(),
            start <= n,
            leading_white(s@) == start + leading_white(s@.skip(start as int)),
        decreases n - start,
    {
        assert(s@.skip(start as int).drop_first() =~= s@.skip(start + 1));
        start = start + 1;
    }
    assert(leading_white(s@.skip(start as int)) == 0);
    let ghost t = s@.skip(start as int);
    let mut end: usize = n;
    assert(t.take(end - start) =~= t);
    while end > start && char_is_whitespace(chars[end - 1])
        invariant
            chars@ == s@,
            n == s@.len(),
            start <= end <= n,
            t == s@.skip(start as int),
            trailing_white(t) == (n - end) + trailing_white(t.take(end - start)),
        decreases end,
    {
        assert(t.take(end - start).drop_last() =~= t.take(end - 1 - start));
        end = end - 1;
    }
    proof {
        lemma_trailing_white_bound(t);
    }
    assert(trailing_white(t.take(end - start)) == 0);
    let res = string_from_chars(&chars, start, end);
    assert(res@ =~= trimmed(s@));
    res
}

/// `needle` occurs in `hay` as a run of consecutive chars.
pub open spec fn occurs_in(needle: Seq<char>, hay: Seq<char>) -> bool {
    exists|i: int| 0 <= i && i + needle.len() <= hay.len() && #[trigger] hay.subrange(i, i + needle.len()) == needle
}

/// Whether `nd` occurs in `h` starting at position `i`.
fn matches_at(h: &Vec<char>, nd: &Vec<char>, i: usize) -> (res: bool)
    requires
        i + nd@.len() <= h@.len(),
    ensures
        res == (h@.subrange(i as int, i + nd@.len()) == nd@),
{
    let hl = h.len();
    let mut j: usize = 0;
    while j < nd.len()
        invariant
            hl == h@.len(),
            i + nd@.len() <= h@.len(),
            j <= nd@.len(),
            h@.subrange(i as int, i + j) == nd@.subrange(0, j as int),
        decreases nd@.len() - j,
    {
        if h[i + j] != nd[j] {
            assert(h@.subrange(i as int, i + nd@.len())[j as int] != nd@[j as int]);
            return false;
        }
        assert(h@.subrange(i as int, i + j + 1) =~= h@.subrange(i as int, i + j).push(h@[i + j]));
        assert(nd@.subrange(0, j + 1) =~= nd@.subrange(0, j as int).push(nd@[j as int]));
        j = j + 1;
    }
    assert(nd@.subrange(0, nd@.len() as int) =~= nd@);
    true
}

/// Whether `needle` occurs in `hay`, as `str::contains` tells.
pub fn contains_text(hay: &str, needle: &str) -> (res: bool)
    ensures
        res == occurs_in(needle@, hay@),
{
    let h = chars_of(hay);
    let nd = chars_of(needle);
    if nd.len() > h.len() {
        return false;
    }
    let last = h.len() - nd.len();
    let mut i: usize = 0;
    while i <= last
        invariant
            h@ == hay@,
            nd@ == needle@,
            last == h@.len() - nd@.len(),
            i <= last + 1,
            forall|k: int| 0 <= k < i ==> #[trigger] h@.subrange(k, k + nd@.len()) != nd@,
        decreases last + 1 - i,
    {
        if matches_at(&h, &nd, i) {
            return true;
        }
        if i == last {
            return false;
        }
        i = i + 1;
    }
    false
}

/// `s[i..]` with every occurrence of `pat`, taken from left to right
/// without overlaps, replaced by `rep`.
pub open spec fn replaced_from(s: Seq<char>, i: int, pat: Seq<char>, rep: Seq<char>) -> Seq<char>
    decreases s.len() - i,
{
    if i < 0 || i >= s.len() {
        Seq::empty()
    } else if pat.len() > 0 && i + pat.len() <= s.len() && s.subrange(i, i + pat.len()) == pat {
        rep + replaced_from(s, i + pat.len(), pat, rep)
    } else {
        seq![s[i]] + replaced_from(s, i + 1, pat, rep)
    }
}

/// `s` with every occurrence of `pat` replaced by `rep`, as `str::replace`
/// does it for a non-empty pattern.
pub open spec fn replaced(s: Seq<char>, pat: Seq<char>, rep: Seq<char>) -> Seq<char> {
    replaced_from(s, 0, pat, rep)
}

/// `s` with every occurrence of the non-empty `pat` replaced by `rep`.
pub fn replace_all(s: &str, pat: &str, rep: &str) -> (res: String)
    requires
        pat@.len() > 0,
    ensures
        res@ == replaced(s@, pat@, rep@),
{
    let h = chars_of(s);
    let p = chars_of(pat);
    let n = h.len();
    let mut out = String::new();
    let mut i: usize = 0;
    while i < n
        invariant
            h@ == s@,
            p@ == pat@,
            p@.len() > 0,
            n == s@.len(),
            i <= n,
            out@ + replaced_from(s@, i as int, pat@, rep@) == replaced(s@, pat@, rep@),
        decreases n - i,
    {
        let ghost before = out@;
        if p.len() <= n - i && matches_at(&h, &p, i) {
            out.append(rep);
            i = i + p.len();
            assert(out@ + replaced_from(s@, i as int, pat@, rep@) =~= before + replaced_from(
                s@,
                i - p@.len(),
                pat@,
                rep@,
            ));
        } else {
            push_char(&mut out, h[i]);
            i = i + 1;
            assert(out@ + replaced_from(s@, i as int, pat@, rep@) =~= before + replaced_from(
                s@,
                i - 1,
                pat@,
                rep@,
            ));
        }
    }
    assert(out@ =~= out@ + replaced_from(s@, i as int, pat@, rep@));
    out
}

} // verus!
