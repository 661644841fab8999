//! Romaji to kana conversion: a greedy longest-match transliterator with
//! the special rules for syllabic `n`, doubled consonants (sokuon) and
//! Japanese punctuation, producing hiragana or katakana.
use vstd::prelude::*;

use crate::text::{
    char_is_ascii_alphabetic, char_to_ascii_lowercase, chars_of, is_ascii_letter, lowercase,
    push_char, str_lowercase, string_from_chars,
};

verus! {

/// The view of an optional string literal.
pub open spec fn opt_str_view(o: Option<&str>) -> Option<Seq<char>> {
    match o {
        Some(s) => Some(s@),
        None => None,
    }
}

/// Katakana-only foreign syllables, for keys of 2 chars.
pub open spec fn foreign_table2(c0: char, c1: char) -> Option<Seq<char>> {
    match (c0, c1) {
        ('f', 'a') => Some("ファ"@),
        ('f', 'i') => Some("フィ"@),
        ('f', 'e') => Some("フェ"@),
        ('f', 'o') => Some("フォ"@),
        ('v', 'a') => Some("ヴァ"@),
        ('v', 'i') => Some("ヴィ"@),
        ('v', 'e') => Some("ヴェ"@),
        ('v', 'o') => Some("ヴォ"@),
        ('w', 'i') => Some("ウィ"@),
        ('w', 'e') => Some("ウェ"@),
        _ => None,
    }
}

fn foreign_lookup2(c0: char, c1: char) -> (res: Option<&'static str>)
    ensures
        opt_str_view(res) == foreign_table2(c0, c1),
{
    match (c0, c1) {
        ('f', 'a') => Some("ファ"),
        ('f', 'i') => Some("フィ"),
        ('f', 'e') => Some("フェ"),
        ('f', 'o') => Some("フォ"),
        ('v', 'a') => Some("ヴァ"),
        ('v', 'i') => Some("ヴィ"),
        ('v', 'e') => Some("ヴェ"),
        ('v', 'o') => Some("ヴォ"),
        ('w', 'i') => Some("ウィ"),
        ('w', 'e') => Some("ウェ"),
        _ => None,
    }
}

/// Katakana-only foreign syllables, for keys of 3 chars.
pub open spec fn foreign_table3(c0: char, c1: char, c2: char) -> Option<Seq<char>> {
    match (c0, c1, c2) {
        ('t', 'h', 'i') => Some("ティ"@),
        ('t', 'h', 'u') => Some("テュ"@),
        ('d', 'h', 'i') => Some("ディ"@),
        ('d', 'h', 'u') => Some("デュ"@),
        ('t', 's', 'a') => Some("ツァ"@),
        ('t', 's', 'i') => Some("ツィ"@),
        ('t', 's', 'e') => Some("ツェ"@),
        ('t', 's', 'o') => Some("ツォ"@),
        _ => None,
    }
}

fn foreign_lookup3(c0: char, c1: char, c2: char) -> (res: Option<&'static str>)
    ensures
        opt_str_view(res) == foreign_table3(c0, c1, c2),
{
    match (c0, c1, c2) {
        ('t', 'h', 'i') => Some("ティ"),
        ('t', 'h', 'u') => Some("テュ"),
        ('d', 'h', 'i') => Some("ディ"),
        ('d', 'h', 'u') => Some("デュ"),
        ('t', 's', 'a') => Some("ツァ"),
        ('t', 's', 'i') => Some("ツィ"),
        ('t', 's', 'e') => Some("ツェ"),
        ('t', 's', 'o') => Some("ツォ"),
        _ => None,
    }
}

/// Romaji syllables and their hiragana, for keys of 1 char.
pub open spec fn hiragana_table1(c0: char) -> Option<Seq<char>> {
    match c0 {
        'a' => Some("あ"@),
        'i' => Some("い"@),
        'u' => Some("う"@),
        'e' => Some("え"@),
        'o' => Some("お"@),
        _ => None,
    }
}

fn hiragana_lookup1(c0: char) -> (res: Option<&'static str>)
    ensures
        opt_str_view(res) == hiragana_table1(c0),
{
    match c0 {
        'a' => Some("あ"),
        'i' => Some("い"),
        'u' => Some("う"),
        'e' => Some("え"),
        'o' => Some("お"),
        _ => None,
    }
}

/// Romaji syllables and their hiragana, for keys of 2 chars.
pub open spec fn hiragana_table2(c0: char, c1: char) -> Option<Seq<char>> {
    match (c0, c1) {
        ('k', 'a') => Some("か"@),
        ('k', 'i') => Some("き"@),
        ('k', 'u') => Some("く"@),
        ('k', 'e') => Some("け"@),
        ('k', 'o') => Some("こ"@),
        ('s', 'a') => Some("さ"@),
        ('s', 'i') => Some("し"@),
        ('s', 'u') => Some("す"@),
        ('s', 'e') => Some("せ"@),
        ('s', 'o') => Some("そ"@),
        ('t', 'a') => Some("た"@),
        ('t', 'i') => Some("ち"@),
        ('t', 'u') => Some("つ"@),
        ('t', 'e') => Some("て"@),
        ('t', 'o') => Some("と"@),
        ('n', 'a') => Some("な"@),
        ('n', 'i') => Some("に"@),
        ('n', 'u') => Some("ぬ"@),
        ('n', 'e') => Some("ね"@),
        ('n', 'o') => Some("の"@),
        ('h', 'a') => Some("は"@),
        ('h', 'i') => Some("ひ"@),
        ('f', 'u') => Some("ふ"@),
        ('h', 'u') => Some("ふ"@),
        ('h', 'e') => Some("へ"@),
        ('h', 'o') => Some("ほ"@),
        ('m', 'a') => Some("ま"@),
        ('m', 'i') => Some("み"@),
        ('m', 'u') => Some("む"@),
        ('m', 'e') => Some("め"@),
        ('m', 'o') => Some("も"@),
        ('y', 'a') => Some("や"@),
        ('y', 'u') => Some("ゆ"@),
        ('y', 'o') => Some("よ"@),
        ('r', 'a') => Some("ら"@),
        ('r', 'i') => Some("り"@),
        ('r', 'u') => Some("る"@),
        ('r', 'e') => Some("れ"@),
        ('r', 'o') => Some("ろ"@),
        ('w', 'a') => Some("わ"@),
        ('w', 'o') => Some("を"@),
        ('n', 'n') => Some("ん"@),
        ('g', 'a') => Some("が"@),
        ('g', 'i') => Some("ぎ"@),
        ('g', 'u') => Some("ぐ"@),
        ('g', 'e') => Some("げ"@),
        ('g', 'o') => Some("ご"@),
        ('z', 'a') => Some("ざ"@),
        ('j', 'i') => Some("じ"@),
        ('z', 'i') => Some("じ"@),
        ('z', 'u') => Some("ず"@),
        ('z', 'e') => Some("ぜ"@),
        ('z', 'o') => Some("ぞ"@),
        ('d', 'a') => Some("だ"@),
        ('d', 'i') => Some("ぢ"@),
        ('d', 'u') => Some("づ"@),
        ('d', 'e') => Some("で"@),
        ('d', 'o') => Some("ど"@),
        ('b', 'a') => Some("ば"@),
        ('b', 'i') => Some("び"@),
        ('b', 'u') => Some("ぶ"@),
        ('b', 'e') => Some("べ"@),
        ('b', 'o') => Some("ぼ"@),
        ('p', 'a') => Some("ぱ"@),
        ('p', 'i') => Some("ぴ"@),
        ('p', 'u') => Some("ぷ"@),
        ('p', 'e') => Some("ぺ"@),
        ('p', 'o') => Some("ぽ"@),
        ('v', 'u') => Some("ゔ"@),
        ('j', 'a') => Some("じゃ"@),
        ('j', 'u') => Some("じゅ"@),
        ('j', 'o') => Some("じょ"@),
        ('x', 'a') => Some("ぁ"@),
        ('x', 'i') => Some("ぃ"@),
        ('x', 'u') => Some("ぅ"@),
        ('x', 'e') => Some("ぇ"@),
        ('x', 'o') => Some("ぉ"@),
        _ => None,
    }
}

fn hiragana_lookup2(c0: char, c1: char) -> (res: Option<&'static str>)
    ensures
        opt_str_view(res) == hiragana_table2(c0, c1),
{
    match (c0, c1) {
        ('k', 'a') => Some("か"),
        ('k', 'i') => Some("き"),
        ('k', 'u') => Some("く"),
        ('k', 'e') => Some("け"),
        ('k', 'o') => Some("こ"),
        ('s', 'a') => Some("さ"),
        ('s', 'i') => Some("し"),
        ('s', 'u') => Some("す"),
        ('s', 'e') => Some("せ"),
        ('s', 'o') => Some("そ"),
        ('t', 'a') => Some("た"),
        ('t', 'i') => Some("ち"),
        ('t', 'u') => Some("つ"),
        ('t', 'e') => Some("て"),
        ('t', 'o') => Some("と"),
        ('n', 'a') => Some("な"),
        ('n', 'i') => Some("に"),
        ('n', 'u') => Some("ぬ"),
        ('n', 'e') => Some("ね"),
        ('n', 'o') => Some("の"),
        ('h', 'a') => Some("は"),
        ('h', 'i') => Some("ひ"),
        ('f', 'u') => Some("ふ"),
        ('h', 'u') => Some("ふ"),
        ('h', 'e') => Some("へ"),
        ('h', 'o') => Some("ほ"),
        ('m', 'a') => Some("ま"),
        ('m', 'i') => Some("み"),
        ('m', 'u') => Some("む"),
        ('m', 'e') => Some("め"),
        ('m', 'o') => Some("も"),
        ('y', 'a') => Some("や"),
        ('y', 'u') => Some("ゆ"),
        ('y', 'o') => Some("よ"),
        ('r', 'a') => Some("ら"),
        ('r', 'i') => Some("り"),
        ('r', 'u') => Some("る"),
        ('r', 'e') => Some("れ"),
        ('r', 'o') => Some("ろ"),
        ('w', 'a') => Some("わ"),
        ('w', 'o') => Some("を"),
        ('n', 'n') => Some("ん"),
        ('g', 'a') => Some("が"),
        ('g', 'i') => Some("ぎ"),
        ('g', 'u') => Some("ぐ"),
        ('g', 'e') => Some("げ"),
        ('g', 'o') => Some("ご"),
        ('z', 'a') => Some("ざ"),
        ('j', 'i') => Some("じ"),
        ('z', 'i') => Some("じ"),
        ('z', 'u') => Some("ず"),
        ('z', 'e') => Some("ぜ"),
        ('z', 'o') => Some("ぞ"),
        ('d', 'a') => Some("だ"),
        ('d', 'i') => Some("ぢ"),
        ('d', 'u') => Some("づ"),
        ('d', 'e') => Some("で"),
        ('d', 'o') => Some("ど"),
        ('b', 'a') => Some("ば"),
        ('b', 'i') => Some("び"),
        ('b', 'u') => Some("ぶ"),
        ('b', 'e') => Some("べ"),
        ('b', 'o') => Some("ぼ"),
        ('p', 'a') => Some("ぱ"),
        ('p', 'i') => Some("ぴ"),
        ('p', 'u') => Some("ぷ"),
        ('p', 'e') => Some("ぺ"),
        ('p', 'o') => Some("ぽ"),
        ('v', 'u') => Some("ゔ"),
        ('j', 'a') => Some("じゃ"),
        ('j', 'u') => Some("じゅ"),
        ('j', 'o') => Some("じょ"),
        ('x', 'a') => Some("ぁ"),
        ('x', 'i') => Some("ぃ"),
        ('x', 'u') => Some("ぅ"),
        ('x', 'e') => Some("ぇ"),
        ('x', 'o') => Some("ぉ"),
        _ => None,
    }
}

/// Romaji syllables and their hiragana, for keys of 3 chars.
pub open spec fn hiragana_table3(c0: char, c1: char, c2: char) -> Option<Seq<char>> {
    match (c0, c1, c2) {
        ('s', 'h', 'i') => Some("し"@),
        ('c', 'h', 'i') => Some("ち"@),
        ('t', 's', 'u') => Some("つ"@),
        ('k', 'y', 'a') => Some("きゃ"@),
        ('k', 'y', 'u') => Some("きゅ"@),
        ('k', 'y', 'o') => Some("きょ"@),
        ('s', 'h', 'a') => Some("しゃ"@),
        ('s', 'h', 'u') => Some("しゅ"@),
        ('s', 'h', 'o') => Some("しょ"@),
        ('s', 'y', 'a') => Some("しゃ"@),
        ('s', 'y', 'u') => Some("しゅ"@),
        ('s', 'y', 'o') => Some("しょ"@),
        ('c', 'h', 'a') => Some("ちゃ"@),
        ('c', 'h', 'u') => Some("ちゅ"@),
        ('c', 'h', 'o') => Some("ちょ"@),
        ('t', 'y', 'a') => Some("ちゃ"@),
        ('t', 'y', 'u') => Some("ちゅ"@),
        ('t', 'y', 'o') => Some("ちょ"@),
        ('n', 'y', 'a') => Some("にゃ"@),
        ('n', 'y', 'u') => Some("にゅ"@),
        ('n', 'y', 'o') => Some("にょ"@),
        ('h', 'y', 'a') => Some("ひゃ"@),
        ('h', 'y', 'u') => Some("ひゅ"@),
        ('h', 'y', 'o') => Some("ひょ"@),
        ('m', 'y', 'a') => Some("みゃ"@),
        ('m', 'y', 'u') => Some("みゅ"@),
        ('m', 'y', 'o') => Some("みょ"@),
        ('r', 'y', 'a') => Some("りゃ"@),
        ('r', 'y', 'u') => Some("りゅ"@),
        ('r', 'y', 'o') => Some("りょ"@),
        ('g', 'y', 'a') => Some("ぎゃ"@),
        ('g', 'y', 'u') => Some("ぎゅ"@),
        ('g', 'y', 'o') => Some("ぎょ"@),
        ('j', 'y', 'a') => Some("じゃ"@),
        ('j', 'y', 'u') => Some("じゅ"@),
        ('j', 'y', 'o') => Some("じょ"@),
        ('z', 'y', 'a') => Some("じゃ"@),
        ('z', 'y', 'u') => Some("じゅ"@),
        ('z', 'y', 'o') => Some("じょ"@),
        ('b', 'y', 'a') => Some("びゃ"@),
        ('b', 'y', 'u') => Some("びゅ"@),
        ('b', 'y', 'o') => Some("びょ"@),
        ('p', 'y', 'a') => Some("ぴゃ"@),
        ('p', 'y', 'u') => Some("ぴゅ"@),
        ('p', 'y', 'o') => Some("ぴょ"@),
        ('d', 'y', 'a') => Some("ぢゃ"@),
        ('d', 'y', 'u') => Some("ぢゅ"@),
        ('d', 'y', 'o') => Some("ぢょ"@),
        ('x', 'y', 'a') => Some("ゃ"@),
        ('x', 'y', 'u') => Some("ゅ"@),
        ('x', 'y', 'o') => Some("ょ"@),
        ('x', 't', 'u') => Some("っ"@),
        ('x', 'w', 'a') => Some("ゎ"@),
        _ => None,
    }
}

fn hiragana_lookup3(c0: char, c1: char, c2: char) -> (res: Option<&'static str>)
    ensures
        opt_str_view(res) == hiragana_table3(c0, c1, c2),
{
    match (c0, c1, c2) {
        ('s', 'h', 'i') => Some("し"),
        ('c', 'h', 'i') => Some("ち"),
        ('t', 's', 'u') => Some("つ"),
        ('k', 'y', 'a') => Some("きゃ"),
        ('k', 'y', 'u') => Some("きゅ"),
        ('k', 'y', 'o') => Some("きょ"),
        ('s', 'h', 'a') => Some("しゃ"),
        ('s', 'h', 'u') => Some("しゅ"),
        ('s', 'h', 'o') => Some("しょ"),
        ('s', 'y', 'a') => Some("しゃ"),
        ('s', 'y', 'u') => Some("しゅ"),
        ('s', 'y', 'o') => Some("しょ"),
        ('c', 'h', 'a') => Some("ちゃ"),
        ('c', 'h', 'u') => Some("ちゅ"),
        ('c', 'h', 'o') => Some("ちょ"),
        ('t', 'y', 'a') => Some("ちゃ"),
        ('t', 'y', 'u') => Some("ちゅ"),
        ('t', 'y', 'o') => Some("ちょ"),
        ('n', 'y', 'a') => Some("にゃ"),
        ('n', 'y', 'u') => Some("にゅ"),
        ('n', 'y', 'o') => Some("にょ"),
        ('h', 'y', 'a') => Some("ひゃ"),
        ('h', 'y', 'u') => Some("ひゅ"),
        ('h', 'y', 'o') => Some("ひょ"),
        ('m', 'y', 'a') => Some("みゃ"),
        ('m', 'y', 'u') => Some("みゅ"),
        ('m', 'y', 'o') => Some("みょ"),
        ('r', 'y', 'a') => Some("りゃ"),
        ('r', 'y', 'u') => Some("りゅ"),
        ('r', 'y', 'o') => Some("りょ"),
        ('g', 'y', 'a') => Some("ぎゃ"),
        ('g', 'y', 'u') => Some("ぎゅ"),
        ('g', 'y', 'o') => Some("ぎょ"),
        ('j', 'y', 'a') => Some("じゃ"),
        ('j', 'y', 'u') => Some("じゅ"),
        ('j', 'y', 'o') => Some("じょ"),
        ('z', 'y', 'a') => Some("じゃ"),
        ('z', 'y', 'u') => Some("じゅ"),
        ('z', 'y', 'o') => Some("じょ"),
        ('b', 'y', 'a') => Some("びゃ"),
        ('b', 'y', 'u') => Some("びゅ"),
        ('b', 'y', 'o') => Some("びょ"),
        ('p', 'y', 'a') => Some("ぴゃ"),
        ('p', 'y', 'u') => Some("ぴゅ"),
        ('p', 'y', 'o') => Some("ぴょ"),
        ('d', 'y', 'a') => Some("ぢゃ"),
        ('d', 'y', 'u') => Some("ぢゅ"),
        ('d', 'y', 'o') => Some("ぢょ"),
        ('x', 'y', 'a') => Some("ゃ"),
        ('x', 'y', 'u') => Some("ゅ"),
        ('x', 'y', 'o') => Some("ょ"),
        ('x', 't', 'u') => Some("っ"),
        ('x', 'w', 'a') => Some("ゎ"),
        _ => None,
    }
}

/// Romaji syllables and their hiragana, for keys of 4 chars.
pub open spec fn hiragana_table4(c0: char, c1: char, c2: char, c3: char) -> Option<Seq<char>> {
    match (c0, c1, c2, c3) {
        ('x', 't', 's', 'u') => Some("っ"@),
        _ => None,
    }
}

fn hiragana_lookup4(c0: char, c1: char, c2: char, c3: char) -> (res: Option<&'static str>)
    ensures
        opt_str_view(res) == hiragana_table4(c0, c1, c2, c3),
{
    match (c0, c1, c2, c3) {
        ('x', 't', 's', 'u') => Some("っ"),
        _ => None,
    }
}

/// Hiragana and the katakana with the same reading, for keys of 1 char.
pub open spec fn katakana_table1(c0: char) -> Option<Seq<char>> {
    match c0 {
        'あ' => Some("ア"@),
        'い' => Some("イ"@),
        'う' => Some("ウ"@),
        'え' => Some("エ"@),
        'お' => Some("オ"@),
        'ぁ' => Some("ァ"@),
        'ぃ' => Some("ィ"@),
        'ぅ' => Some("ゥ"@),
        'ぇ' => Some("ェ"@),
        'ぉ' => Some("ォ"@),
        'か' => Some("カ"@),
        'き' => Some("キ"@),
        'く' => Some("ク"@),
        'け' => Some("ケ"@),
        'こ' => Some("コ"@),
        'さ' => Some("サ"@),
        'し' => Some("シ"@),
        'す' => Some("ス"@),
        'せ' => Some("セ"@),
        'そ' => Some("ソ"@),
        'た' => Some("タ"@),
        'ち' => Some("チ"@),
        'つ' => Some("ツ"@),
        'て' => Some("テ"@),
        'と' => Some("ト"@),
        'な' => Some("ナ"@),
        'に' => Some("ニ"@),
        'ぬ' => Some("ヌ"@),
        'ね' => Some("ネ"@),
        'の' => Some("ノ"@),
        'は' => Some("ハ"@),
        'ひ' => Some("ヒ"@),
        'ふ' => Some("フ"@),
        'へ' => Some("ヘ"@),
        'ほ' => Some("ホ"@),
        'ま' => Some("マ"@),
        'み' => Some("ミ"@),
        'む' => Some("ム"@),
        'め' => Some("メ"@),
        'も' => Some("モ"@),
        'や' => Some("ヤ"@),
        'ゆ' => Some("ユ"@),
        'よ' => Some("ヨ"@),
        'ゃ' => Some("ャ"@),
        'ゅ' => Some("ュ"@),
        'ょ' => Some("ョ"@),
        'ら' => Some("ラ"@),
        'り' => Some("リ"@),
        'る' => Some("ル"@),
        'れ' => Some("レ"@),
        'ろ' => Some("ロ"@),
        'わ' => Some("ワ"@),
        'ゎ' => Some("ヮ"@),
        'を' => Some("ヲ"@),
        'ん' => Some("ン"@),
        'ゔ' => Some("ヴ"@),
        'が' => Some("ガ"@),
        'ぎ' => Some("ギ"@),
        'ぐ' => Some("グ"@),
        'げ' => Some("ゲ"@),
        'ご' => Some("ゴ"@),
        'ざ' => Some("ザ"@),
        'じ' => Some("ジ"@),
        'ず' => Some("ズ"@),
        'ぜ' => Some("ゼ"@),
        'ぞ' => Some("ゾ"@),
        'だ' => Some("ダ"@),
        'ぢ' => Some("ヂ"@),
        'づ' => Some("ヅ"@),
        'で' => Some("デ"@),
        'ど' => Some("ド"@),
        'ば' => Some("バ"@),
        'び' => Some("ビ"@),
        'ぶ' => Some("ブ"@),
        'べ' => Some("ベ"@),
        'ぼ' => Some("ボ"@),
        'ぱ' => Some("パ"@),
        'ぴ' => Some("ピ"@),
        'ぷ' => Some("プ"@),
        'ぺ' => Some("ペ"@),
        'ぽ' => Some("ポ"@),
        'っ' => Some("ッ"@),
        _ => None,
    }
}

fn katakana_lookup1(c0: char) -> (res: Option<&'static str>)
    ensures
        opt_str_view(res) == katakana_table1(c0),
{
    match c0 {
        'あ' => Some("ア"),
        'い' => Some("イ"),
        'う' => Some("ウ"),
        'え' => Some("エ"),
        'お' => Some("オ"),
        'ぁ' => Some("ァ"),
        'ぃ' => Some("ィ"),
        'ぅ' => Some("ゥ"),
        'ぇ' => Some("ェ"),
        'ぉ' => Some("ォ"),
        'か' => Some("カ"),
        'き' => Some("キ"),
        'く' => Some("ク"),
        'け' => Some("ケ"),
        'こ' => Some("コ"),
        'さ' => Some("サ"),
        'し' => Some("シ"),
        'す' => Some("ス"),
        'せ' => Some("セ"),
        'そ' => Some("ソ"),
        'た' => Some("タ"),
        'ち' => Some("チ"),
        'つ' => Some("ツ"),
        'て' => Some("テ"),
        'と' => Some("ト"),
        'な' => Some("ナ"),
        'に' => Some("ニ"),
        'ぬ' => Some("ヌ"),
        'ね' => Some("ネ"),
        'の' => Some("ノ"),
        'は' => Some("ハ"),
        'ひ' => Some("ヒ"),
        'ふ' => Some("フ"),
        'へ' => Some("ヘ"),
        'ほ' => Some("ホ"),
        'ま' => Some("マ"),
        'み' => Some("ミ"),
        'む' => Some("ム"),
        'め' => Some("メ"),
        'も' => Some("モ"),
        'や' => Some("ヤ"),
        'ゆ' => Some("ユ"),
        'よ' => Some("ヨ"),
        'ゃ' => Some("ャ"),
        'ゅ' => Some("ュ"),
        'ょ' => Some("ョ"),
        'ら' => Some("ラ"),
        'り' => Some("リ"),
        'る' => Some("ル"),
        'れ' => Some("レ"),
        'ろ' => Some("ロ"),
        'わ' => Some("ワ"),
        'ゎ' => Some("ヮ"),
        'を' => Some("ヲ"),
        'ん' => Some("ン"),
        'ゔ' => Some("ヴ"),
        'が' => Some("ガ"),
        'ぎ' => Some("ギ"),
        'ぐ' => Some("グ"),
        'げ' => Some("ゲ"),
        'ご' => Some("ゴ"),
        'ざ' => Some("ザ"),
        'じ' => Some("ジ"),
        'ず' => Some("ズ"),
        'ぜ' => Some("ゼ"),
        'ぞ' => Some("ゾ"),
        'だ' => Some("ダ"),
        'ぢ' => Some("ヂ"),
        'づ' => Some("ヅ"),
        'で' => Some("デ"),
        'ど' => Some("ド"),
        'ば' => Some("バ"),
        'び' => Some("ビ"),
        'ぶ' => Some("ブ"),
        'べ' => Some("ベ"),
        'ぼ' => Some("ボ"),
        'ぱ' => Some("パ"),
        'ぴ' => Some("ピ"),
        'ぷ' => Some("プ"),
        'ぺ' => Some("ペ"),
        'ぽ' => Some("ポ"),
        'っ' => Some("ッ"),
        _ => None,
    }
}

/// Hiragana and the katakana with the same reading, for keys of 2 chars.
pub open spec fn katakana_table2(c0: char, c1: char) -> Option<Seq<char>> {
    match (c0, c1) {
        ('き', 'ゃ') => Some("キャ"@),
        ('き', 'ゅ') => Some("キュ"@),
        ('き', 'ょ') => Some("キョ"@),
        ('し', 'ゃ') => Some("シャ"@),
        ('し', 'ゅ') => Some("シュ"@),
        ('し', 'ょ') => Some("ショ"@),
        ('ち', 'ゃ') => Some("チャ"@),
        ('ち', 'ゅ') => Some("チュ"@),
        ('ち', 'ょ') => Some("チョ"@),
        ('に', 'ゃ') => Some("ニャ"@),
        ('に', 'ゅ') => Some("ニュ"@),
        ('に', 'ょ') => Some("ニョ"@),
        ('ひ', 'ゃ') => Some("ヒャ"@),
        ('ひ', 'ゅ') => Some("ヒュ"@),
        ('ひ', 'ょ') => Some("ヒョ"@),
        ('み', 'ゃ') => Some("ミャ"@),
        ('み', 'ゅ') => Some("ミュ"@),
        ('み', 'ょ') => Some("ミョ"@),
        ('り', 'ゃ') => Some("リャ"@),
        ('り', 'ゅ') => Some("リュ"@),
        ('り', 'ょ') => Some("リョ"@),
        ('ぎ', 'ゃ') => Some("ギャ"@),
        ('ぎ', 'ゅ') => Some("ギュ"@),
        ('ぎ', 'ょ') => Some("ギョ"@),
        ('じ', 'ゃ') => Some("ジャ"@),
        ('じ', 'ゅ') => Some("ジュ"@),
        ('じ', 'ょ') => Some("ジョ"@),
        ('び', 'ゃ') => Some("ビャ"@),
        ('び', 'ゅ') => Some("ビュ"@),
        ('び', 'ょ') => Some("ビョ"@),
        ('ぴ', 'ゃ') => Some("ピャ"@),
        ('ぴ', 'ゅ') => Some("ピュ"@),
        ('ぴ', 'ょ') => Some("ピョ"@),
        ('ぢ', 'ゃ') => Some("ヂャ"@),
        ('ぢ', 'ゅ') => Some("ヂュ"@),
        ('ぢ', 'ょ') => Some("ヂョ"@),
        _ => None,
    }
}

fn katakana_lookup2(c0: char, c1: char) -> (res: Option<&'static str>)
    ensures
        opt_str_view(res) == katakana_table2(c0, c1),
{
    match (c0, c1) {
        ('き', 'ゃ') => Some("キャ"),
        ('き', 'ゅ') => Some("キュ"),
        ('き', 'ょ') => Some("キョ"),
        ('し', 'ゃ') => Some("シャ"),
        ('し', 'ゅ') => Some("シュ"),
        ('し', 'ょ') => Some("ショ"),
        ('ち', 'ゃ') => Some("チャ"),
        ('ち', 'ゅ') => Some("チュ"),
        ('ち', 'ょ') => Some("チョ"),
        ('に', 'ゃ') => Some("ニャ"),
        ('に', 'ゅ') => Some("ニュ"),
        ('に', 'ょ') => Some("ニョ"),
        ('ひ', 'ゃ') => Some("ヒャ"),
        ('ひ', 'ゅ') => Some("ヒュ"),
        ('ひ', 'ょ') => Some("ヒョ"),
        ('み', 'ゃ') => Some("ミャ"),
        ('み', 'ゅ') => Some("ミュ"),
        ('み', 'ょ') => Some("ミョ"),
        ('り', 'ゃ') => Some("リャ"),
        ('り', 'ゅ') => Some("リュ"),
        ('り', 'ょ') => Some("リョ"),
        ('ぎ', 'ゃ') => Some("ギャ"),
        ('ぎ', 'ゅ') => Some("ギュ"),
        ('ぎ', 'ょ') => Some("ギョ"),
        ('じ', 'ゃ') => Some("ジャ"),
        ('じ', 'ゅ') => Some("ジュ"),
        ('じ', 'ょ') => Some("ジョ"),
        ('び', 'ゃ') => Some("ビャ"),
        ('び', 'ゅ') => Some("ビュ"),
        ('び', 'ょ') => Some("ビョ"),
        ('ぴ', 'ゃ') => Some("ピャ"),
        ('ぴ', 'ゅ') => Some("ピュ"),
        ('ぴ', 'ょ') => Some("ピョ"),
        ('ぢ', 'ゃ') => Some("ヂャ"),
        ('ぢ', 'ゅ') => Some("ヂュ"),
        ('ぢ', 'ょ') => Some("ヂョ"),
        _ => None,
    }
}

/// The katakana-only foreign syllable for an already lowercased key.
pub open spec fn foreign_of(l: Seq<char>) -> Option<Seq<char>> {
    if l.len() == 2 {
        foreign_table2(l[0], l[1])
    } else if l.len() == 3 {
        foreign_table3(l[0], l[1], l[2])
    } else {
        None
    }
}

/// The hiragana for an already lowercased romaji key.
pub open spec fn hiragana_of(l: Seq<char>) -> Option<Seq<char>> {
    if l.len() == 1 {
        hiragana_table1(l[0])
    } else if l.len() == 2 {
        hiragana_table2(l[0], l[1])
    } else if l.len() == 3 {
        hiragana_table3(l[0], l[1], l[2])
    } else if l.len() == 4 {
        hiragana_table4(l[0], l[1], l[2], l[3])
    } else {
        None
    }
}

/// The katakana that the table pairs with a hiragana string, if any.
pub open spec fn katakana_of(h: Seq<char>) -> Option<Seq<char>> {
    if h.len() == 1 {
        katakana_table1(h[0])
    } else if h.len() == 2 {
        katakana_table2(h[0], h[1])
    } else {
        None
    }
}

/// Hiragana turned into katakana: the paired katakana, or the input
/// itself where the table has no entry.
pub open spec fn to_katakana(h: Seq<char>) -> Seq<char> {
    match katakana_of(h) {
        Some(k) => k,
        None => h,
    }
}

/// The kana that a romaji key stands for (case-insensitively, through the
/// Unicode lowercase of the key). In katakana mode the foreign syllables
/// come first, then the hiragana table converted to katakana.
pub open spec fn kana_for_key(romaji: Seq<char>, is_katakana: bool) -> Option<Seq<char>> {
    let l = str_lowercase(romaji);
    if is_katakana && foreign_of(l) is Some {
        foreign_of(l)
    } else {
        match hiragana_of(l) {
            Some(h) => Some(if is_katakana { to_katakana(h) } else { h }),
            None => None,
        }
    }
}

/// One of the five vowels, in either case.
pub open spec fn spec_is_vowel(c: char) -> bool {
    let l = crate::text::ascii_lower(c);
    l == 'a' || l == 'i' || l == 'u' || l == 'e' || l == 'o'
}

/// Syllabic n in the chosen script.
pub open spec fn syllabic_n(is_katakana: bool) -> Seq<char> {
    if is_katakana {
        "ン"@
    } else {
        "ん"@
    }
}

/// The small tsu that marks a doubled consonant, in the chosen script.
pub open spec fn small_tsu(is_katakana: bool) -> Seq<char> {
    if is_katakana {
        "ッ"@
    } else {
        "っ"@
    }
}

/// The first step of reading `s` at position `i` (with `0 <= i < s.len()`):
/// the kana it produces and how many chars it consumes. Keys of 4, 3 and 2
/// chars are tried first; then the rules for `n`; then a doubled consonant
/// becomes a small tsu; then a 1-char key; then `-`, `.` and `,` become
/// `ー`, `。` and `、`; any other char is kept as it is. With `live`, an `n`
/// that ends the input is held back as a literal `n`.
pub open spec fn kana_step(s: Seq<char>, i: int, is_katakana: bool, live: bool) -> (Seq<char>, int) {
    if i + 4 <= s.len() && kana_for_key(s.subrange(i, i + 4), is_katakana) is Some {
        (kana_for_key(s.subrange(i, i + 4), is_katakana).unwrap(), 4)
    } else if i + 3 <= s.len() && kana_for_key(s.subrange(i, i + 3), is_katakana) is Some {
        (kana_for_key(s.subrange(i, i + 3), is_katakana).unwrap(), 3)
    } else if i + 2 <= s.len() && kana_for_key(s.subrange(i, i + 2), is_katakana) is Some {
        (kana_for_key(s.subrange(i, i + 2), is_katakana).unwrap(), 2)
    } else if s[i] == 'n' && live && i + 1 >= s.len() {
        (seq!['n'], 1)
    } else if s[i] == 'n' && i + 1 < s.len() && s[i + 1] == '\'' {
        (syllabic_n(is_katakana), 2)
    } else if s[i] == 'n' && (i + 1 >= s.len() || (!spec_is_vowel(s[i + 1]) && s[i + 1] != 'y')) {
        (syllabic_n(is_katakana), 1)
    } else if i + 1 < s.len() && s[i] == s[i + 1] && !spec_is_vowel(s[i]) && is_ascii_letter(s[i]) {
        (small_tsu(is_katakana), 1)
    } else if kana_for_key(seq![s[i]], is_katakana) is Some {
        (kana_for_key(seq![s[i]], is_katakana).unwrap(), 1)
    } else if s[i] == '-' {
        (seq!['ー'], 1)
    } else if s[i] == '.' {
        (seq!['。'], 1)
    } else if s[i] == ',' {
        (seq!['、'], 1)
    } else {
        (seq![s[i]], 1)
    }
}

/// The kana produced for `s[i..]`: the steps of `kana_step` one after another.
pub open spec fn kana_from(s: Seq<char>, i: int, is_katakana: bool, live: bool) -> Seq<char>
    decreases s.len() - i,
{
    if i < 0 || i >= s.len() {
        Seq::empty()
    } else {
        let step = kana_step(s, i, is_katakana, live);
        step.0 + kana_from(s, i + step.1, is_katakana, live)
    }
}

/// The kana for a whole romaji input.
pub open spec fn kana_of(s: Seq<char>, is_katakana: bool, live: bool) -> Seq<char> {
    kana_from(s, 0, is_katakana, live)
}

/// Converts romaji to kana (hiragana, or katakana when `is_katakana`).
/// Characters that are not romaji pass through, so kanji and kana already
/// in the input survive. With `live_input`, a trailing `n` is kept as `n`
/// because the next keystroke may still turn it into `na`, `nya` and so on.
pub fn to_kana(input: &str, is_katakana: bool, live_input: bool) -> (res: String)
    ensures
        res@ == kana_of(input@, is_katakana, live_input),
{
    let mut results = String::new();
    let chars = chars_of(input);
    let len = chars.len();
    let ghost s = input@;
    let mut i: usize = 0;

    while i < len
        invariant
            chars@ == s,
            len == s.len(),
            i <= len,
            results@ + kana_from(s, i as int, is_katakana, live_input) == kana_of(
                s,
                is_katakana,
                live_input,
            ),
        decreases len - i,
    {
        let (piece, used) = next_kana(&chars, i, is_katakana, live_input);
        let ghost before = results@;
        results.append(piece.as_str());
        i = i + used;
        assert(results@ + kana_from(s, i as int, is_katakana, live_input) =~= before + (piece@
            + kana_from(s, i as int, is_katakana, live_input)));
    }
    assert(results@ =~= results@ + kana_from(s, i as int, is_katakana, live_input));
    results
}

/// One step of the conversion at position `i`: the kana produced and the
/// number of chars consumed.
fn next_kana(chars: &Vec<char>, i: usize, is_katakana: bool, live_input: bool) -> (res: (
    String,
    usize,
))
    requires
        i < chars@.len(),
    ensures
        res.0@ == kana_step(chars@, i as int, is_katakana, live_input).0,
        res.1 == kana_step(chars@, i as int, is_katakana, live_input).1,
        i + res.1 <= chars@.len(),
{
    let len = chars.len();
    // Keys of 4, then 3, then 2 chars ("xtsu", then "shi", then "ka").
    if let Some(kana) = lookup_run(chars, i, 4, is_katakana) {
        return (String::from_str(kana), 4);
    }
    if let Some(kana) = lookup_run(chars, i, 3, is_katakana) {
        return (String::from_str(kana), 3);
    }
    if let Some(kana) = lookup_run(chars, i, 2, is_katakana) {
        return (String::from_str(kana), 2);
    }
    let c = chars[i];
    // The special rules for n: held back while typing at the end, forced
    // by an apostrophe, and syllabic before a consonant (not y) or at the end.
    if c == 'n' {
        let is_end = i + 1 >= len;
        if live_input && is_end {
            let mut held = String::new();
            push_char(&mut held, 'n');
            return (held, 1);
        }
        if !is_end && chars[i + 1] == '\'' {
            return (String::from_str(if is_katakana { "ン" } else { "ん" }), 2);
        }
        let next_is_consonant = !is_end && !is_vowel(chars[i + 1]) && chars[i + 1] != 'y';
        if is_end || next_is_consonant {
            return (String::from_str(if is_katakana { "ン" } else { "ん" }), 1);
        }
    }
    // A doubled consonant becomes a small tsu (sokuon).
    if i + 1 < len && c == chars[i + 1] && !is_vowel(c) && char_is_ascii_alphabetic(c) {
        return (String::from_str(if is_katakana { "ッ" } else { "っ" }), 1);
    }
    // A 1-char key (the vowels).
    if let Some(kana) = lookup_run(chars, i, 1, is_katakana) {
        assert(chars@.subrange(i as int, i + 1) =~= seq![chars@[i as int]]);
        return (String::from_str(kana), 1);
    }
    assert(chars@.subrange(i as int, i + 1) =~= seq![chars@[i as int]]);
    // Long-vowel mark and punctuation; anything else passes through.
    let mut out = String::new();
    if c == '-' {
        push_char(&mut out, 'ー');
    } else if c == '.' {
        push_char(&mut out, '。');
    } else if c == ',' {
        push_char(&mut out, '、');
    } else {
        push_char(&mut out, c);
    }
    (out, 1)
}

/// The kana for the key `chars[i..i + n]`, or `None` when the input ends
/// before `i + n` or the key is not in the table.
fn lookup_run(chars: &Vec<char>, i: usize, n: usize, is_katakana: bool) -> (res: Option<
    &'static str,
>)
    requires
        i < chars@.len(),
        1 <= n <= 4,
    ensures
        i + n <= chars@.len() ==> opt_str_view(res) == kana_for_key(
            chars@.subrange(i as int, i + n),
            is_katakana,
        ),
        i + n > chars@.len() ==> res is None,
{
    if n > chars.len() - i {
        return None;
    }
    let key = string_from_chars(chars, i, i + n);
    get_kana(key.as_str(), is_katakana)
}

/// Live typing only ever holds back a final `n`: on an input that does not
/// end in `n`, the conversion is the same with and without `live_input`.
pub proof fn live_input_only_holds_back_a_final_n(s: Seq<char>, is_katakana: bool)
    requires
        s.len() == 0 || s.last() != 'n',
    ensures
        kana_of(s, is_katakana, true) == kana_of(s, is_katakana, false),
{
    live_input_same_from(s, 0, is_katakana);
}

proof fn live_input_same_from(s: Seq<char>, i: int, is_katakana: bool)
    requires
        s.len() == 0 || s.last() != 'n',
        0 <= i,
    ensures
        kana_from(s, i, is_katakana, true) == kana_from(s, i, is_katakana, false),
    decreases s.len() - i,
{
    if i < s.len() {
        assert(kana_step(s, i, is_katakana, true) == kana_step(s, i, is_katakana, false));
        live_input_same_from(s, i + kana_step(s, i, is_katakana, true).1, is_katakana);
    }
}

/// True for the vowels a, i, u, e, o in either case.
pub fn is_vowel(c: char) -> (res: bool)
    ensures
        res == spec_is_vowel(c),
{
    let l = char_to_ascii_lowercase(c);
    l == 'a' || l == 'i' || l == 'u' || l == 'e' || l == 'o'
}

/// The katakana-only foreign syllable (ファ, ヴィ, ティ, ツァ, ...) for a
/// romaji key, case-insensitively; `None` when the key is not one of them.
pub fn get_katakana_foreign(romaji: &str) -> (res: Option<&'static str>)
    ensures
        opt_str_view(res) == foreign_of(str_lowercase(romaji@)),
{
    let lowered = lowercase(romaji);
    let l = lowered.as_str();
    let n = l.unicode_len();
    if n == 2 {
        foreign_lookup2(l.get_char(0), l.get_char(1))
    } else if n == 3 {
        foreign_lookup3(l.get_char(0), l.get_char(1), l.get_char(2))
    } else {
        None
    }
}

/// The kana for one romaji key, case-insensitively; `None` when the key is
/// not a syllable of the table.
pub fn get_kana(romaji: &str, is_katakana: bool) -> (res: Option<&'static str>)
    ensures
        opt_str_view(res) == kana_for_key(romaji@, is_katakana),
{
    if is_katakana {
        if let Some(kata) = get_katakana_foreign(romaji) {
            return Some(kata);
        }
    }
    let lowered = lowercase(romaji);
    let l = lowered.as_str();
    let n = l.unicode_len();
    let hiragana = if n == 1 {
        hiragana_lookup1(l.get_char(0))
    } else if n == 2 {
        hiragana_lookup2(l.get_char(0), l.get_char(1))
    } else if n == 3 {
        hiragana_lookup3(l.get_char(0), l.get_char(1), l.get_char(2))
    } else if n == 4 {
        hiragana_lookup4(l.get_char(0), l.get_char(1), l.get_char(2), l.get_char(3))
    } else {
        None
    };
    match hiragana {
        Some(h) => {
            if !is_katakana {
                Some(h)
            } else {
                Some(hiragana_to_katakana(h))
            }
        },
        None => None,
    }
}

/// The katakana with the same reading as a hiragana syllable of the table;
/// any other string is returned unchanged.
pub fn hiragana_to_katakana(h: &'static str) -> (res: &'static str)
    ensures
        res@ == to_katakana(h@),
{
    let n = h.unicode_len();
    let found = if n == 1 {
        katakana_lookup1(h.get_char(0))
    } else if n == 2 {
        katakana_lookup2(h.get_char(0), h.get_char(1))
    } else {
        None
    };
    match found {
        Some(k) => k,
        None => h,
    }
}


/// The romaji syllable `romaji` stands for the single kana `hira` in
/// hiragana and `kata` in katakana: the hiragana table gives `hira`, and
/// a key written in lowercase converts to `hira`, or to `kata` in
/// katakana mode.
pub open spec fn gojuon_syllable(romaji: Seq<char>, hira: char, kata: char) -> bool {
    &&& hiragana_of(romaji) == Some(seq![hira])
    &&& str_lowercase(romaji) == romaji ==> kana_for_key(romaji, false) == Some(seq![hira])
        && kana_for_key(romaji, true) == Some(seq![kata])
}

/// Every syllable of the Hepburn gojuon, with its voiced and half-voiced
/// forms, converts to its kana: hiragana, and katakana in katakana mode.
#[verifier::rlimit(100)]
pub proof fn hepburn_syllables_convert_to_their_kana()
    ensures
        gojuon_syllable(seq!['a'], 'あ', 'ア'),
        gojuon_syllable(seq!['i'], 'い', 'イ'),
        gojuon_syllable(seq!['u'], 'う', 'ウ'),
        gojuon_syllable(seq!['e'], 'え', 'エ'),
        gojuon_syllable(seq!['o'], 'お', 'オ'),
        gojuon_syllable(seq!['k', 'a'], 'か', 'カ'),
        gojuon_syllable(seq!['k', 'i'], 'き', 'キ'),
        gojuon_syllable(seq!['k', 'u'], 'く', 'ク'),
        gojuon_syllable(seq!['k', 'e'], 'け', 'ケ'),
        gojuon_syllable(seq!['k', 'o'], 'こ', 'コ'),
        gojuon_syllable(seq!['s', 'a'], 'さ', 'サ'),
        gojuon_syllable(seq!['s', 'h', 'i'], 'し', 'シ'),
        gojuon_syllable(seq!['s', 'u'], 'す', 'ス'),
        gojuon_syllable(seq!['s', 'e'], 'せ', 'セ'),
        gojuon_syllable(seq!['s', 'o'], 'そ', 'ソ'),
        gojuon_syllable(seq!['t', 'a'], 'た', 'タ'),
        gojuon_syllable(seq!['c', 'h', 'i'], 'ち', 'チ'),
        gojuon_syllable(seq!['t', 's', 'u'], 'つ', 'ツ'),
        gojuon_syllable(seq!['t', 'e'], 'て', 'テ'),
        gojuon_syllable(seq!['t', 'o'], 'と', 'ト'),
        gojuon_syllable(seq!['n', 'a'], 'な', 'ナ'),
        gojuon_syllable(seq!['n', 'i'], 'に', 'ニ'),
        gojuon_syllable(seq!['n', 'u'], 'ぬ', 'ヌ'),
        gojuon_syllable(seq!['n', 'e'], 'ね', 'ネ'),
        gojuon_syllable(seq!['n', 'o'], 'の', 'ノ'),
        gojuon_syllable(seq!['h', 'a'], 'は', 'ハ'),
        gojuon_syllable(seq!['h', 'i'], 'ひ', 'ヒ'),
        gojuon_syllable(seq!['f', 'u'], 'ふ', 'フ'),
        gojuon_syllable(seq!['h', 'e'], 'へ', 'ヘ'),
        gojuon_syllable(seq!['h', 'o'], 'ほ', 'ホ'),
        gojuon_syllable(seq!['m', 'a'], 'ま', 'マ'),
        gojuon_syllable(seq!['m', 'i'], 'み', 'ミ'),
        gojuon_syllable(seq!['m', 'u'], 'む', 'ム'),
        gojuon_syllable(seq!['m', 'e'], 'め', 'メ'),
        gojuon_syllable(seq!['m', 'o'], 'も', 'モ'),
        gojuon_syllable(seq!['y', 'a'], 'や', 'ヤ'),
        gojuon_syllable(seq!['y', 'u'], 'ゆ', 'ユ'),
        gojuon_syllable(seq!['y', 'o'], 'よ', 'ヨ'),
        gojuon_syllable(seq!['r', 'a'], 'ら', 'ラ'),
        gojuon_syllable(seq!['r', 'i'], 'り', 'リ'),
        gojuon_syllable(seq!['r', 'u'], 'る', 'ル'),
        gojuon_syllable(seq!['r', 'e'], 'れ', 'レ'),
        gojuon_syllable(seq!['r', 'o'], 'ろ', 'ロ'),
        gojuon_syllable(seq!['w', 'a'], 'わ', 'ワ'),
        gojuon_syllable(seq!['w', 'o'], 'を', 'ヲ'),
        gojuon_syllable(seq!['g', 'a'], 'が', 'ガ'),
        gojuon_syllable(seq!['g', 'i'], 'ぎ', 'ギ'),
        gojuon_syllable(seq!['g', 'u'], 'ぐ', 'グ'),
        gojuon_syllable(seq!['g', 'e'], 'げ', 'ゲ'),
        gojuon_syllable(seq!['g', 'o'], 'ご', 'ゴ'),
        gojuon_syllable(seq!['z', 'a'], 'ざ', 'ザ'),
        gojuon_syllable(seq!['j', 'i'], 'じ', 'ジ'),
        gojuon_syllable(seq!['z', 'u'], 'ず', 'ズ'),
        gojuon_syllable(seq!['z', 'e'], 'ぜ', 'ゼ'),
        gojuon_syllable(seq!['z', 'o'], 'ぞ', 'ゾ'),
        gojuon_syllable(seq!['d', 'a'], 'だ', 'ダ'),
        gojuon_syllable(seq!['d', 'e'], 'で', 'デ'),
        gojuon_syllable(seq!['d', 'o'], 'ど', 'ド'),
        gojuon_syllable(seq!['b', 'a'], 'ば', 'バ'),
        gojuon_syllable(seq!['b', 'i'], 'び', 'ビ'),
        gojuon_syllable(seq!['b', 'u'], 'ぶ', 'ブ'),
        gojuon_syllable(seq!['b', 'e'], 'べ', 'ベ'),
        gojuon_syllable(seq!['b', 'o'], 'ぼ', 'ボ'),
        gojuon_syllable(seq!['p', 'a'], 'ぱ', 'パ'),
        gojuon_syllable(seq!['p', 'i'], 'ぴ', 'ピ'),
        gojuon_syllable(seq!['p', 'u'], 'ぷ', 'プ'),
        gojuon_syllable(seq!['p', 'e'], 'ぺ', 'ペ'),
        gojuon_syllable(seq!['p', 'o'], 'ぽ', 'ポ'),
{
    reveal_strlit("あ");
    reveal_strlit("ア");
    assert("あ"@ =~= seq!['あ']);
    assert("ア"@ =~= seq!['ア']);
    assert(gojuon_syllable(seq!['a'], 'あ', 'ア'));
    reveal_strlit("い");
    reveal_strlit("イ");
    assert("い"@ =~= seq!['い']);
    assert("イ"@ =~= seq!['イ']);
    assert(gojuon_syllable(seq!['i'], 'い', 'イ'));
    reveal_strlit("う");
    reveal_strlit("ウ");
    assert("う"@ =~= seq!['う']);
    assert("ウ"@ =~= seq!['ウ']);
    assert(gojuon_syllable(seq!['u'], 'う', 'ウ'));
    reveal_strlit("え");
    reveal_strlit("エ");
    assert("え"@ =~= seq!['え']);
    assert("エ"@ =~= seq!['エ']);
    assert(gojuon_syllable(seq!['e'], 'え', 'エ'));
    reveal_strlit("お");
    reveal_strlit("オ");
    assert("お"@ =~= seq!['お']);
    assert("オ"@ =~= seq!['オ']);
    assert(gojuon_syllable(seq!['o'], 'お', 'オ'));
    reveal_strlit("か");
    reveal_strlit("カ");
    assert("か"@ =~= seq!['か']);
    assert("カ"@ =~= seq!['カ']);
    assert(gojuon_syllable(seq!['k', 'a'], 'か', 'カ'));
    reveal_strlit("き");
    reveal_strlit("キ");
    assert("き"@ =~= seq!['き']);
    assert("キ"@ =~= seq!['キ']);
    assert(gojuon_syllable(seq!['k', 'i'], 'き', 'キ'));
    reveal_strlit("く");
    reveal_strlit("ク");
    assert("く"@ =~= seq!['く']);
    assert("ク"@ =~= seq!['ク']);
    assert(gojuon_syllable(seq!['k', 'u'], 'く', 'ク'));
    reveal_strlit("け");
    reveal_strlit("ケ");
    assert("け"@ =~= seq!['け']);
    assert("ケ"@ =~= seq!['ケ']);
    assert(gojuon_syllable(seq!['k', 'e'], 'け', 'ケ'));
    reveal_strlit("こ");
    reveal_strlit("コ");
    assert("こ"@ =~= seq!['こ']);
    assert("コ"@ =~= seq!['コ']);
    assert(gojuon_syllable(seq!['k', 'o'], 'こ', 'コ'));
    reveal_strlit("さ");
    reveal_strlit("サ");
    assert("さ"@ =~= seq!['さ']);
    assert("サ"@ =~= seq!['サ']);
    assert(gojuon_syllable(seq!['s', 'a'], 'さ', 'サ'));
    reveal_strlit("し");
    reveal_strlit("シ");
    assert("し"@ =~= seq!['し']);
    assert("シ"@ =~= seq!['シ']);
    assert(gojuon_syllable(seq!['s', 'h', 'i'], 'し', 'シ'));
    reveal_strlit("す");
    reveal_strlit("ス");
    assert("す"@ =~= seq!['す']);
    assert("ス"@ =~= seq!['ス']);
    assert(gojuon_syllable(seq!['s', 'u'], 'す', 'ス'));
    reveal_strlit("せ");
    reveal_strlit("セ");
    assert("せ"@ =~= seq!['せ']);
    assert("セ"@ =~= seq!['セ']);
    assert(gojuon_syllable(seq!['s', 'e'], 'せ', 'セ'));
    reveal_strlit("そ");
    reveal_strlit("ソ");
    assert("そ"@ =~= seq!['そ']);
    assert("ソ"@ =~= seq!['ソ']);
    assert(gojuon_syllable(seq!['s', 'o'], 'そ', 'ソ'));
    reveal_strlit("た");
    reveal_strlit("タ");
    assert("た"@ =~= seq!['た']);
    assert("タ"@ =~= seq!['タ']);
    assert(gojuon_syllable(seq!['t', 'a'], 'た', 'タ'));
    reveal_strlit("ち");
    reveal_strlit("チ");
    assert("ち"@ =~= seq!['ち']);
    assert("チ"@ =~= seq!['チ']);
    assert(gojuon_syllable(seq!['c', 'h', 'i'], 'ち', 'チ'));
    reveal_strlit("つ");
    reveal_strlit("ツ");
    assert("つ"@ =~= seq!['つ']);
    assert("ツ"@ =~= seq!['ツ']);
    assert(gojuon_syllable(seq!['t', 's', 'u'], 'つ', 'ツ'));
    reveal_strlit("て");
    reveal_strlit("テ");
    assert("て"@ =~= seq!['て']);
    assert("テ"@ =~= seq!['テ']);
    assert(gojuon_syllable(seq!['t', 'e'], 'て', 'テ'));
    reveal_strlit("と");
    reveal_strlit("ト");
    assert("と"@ =~= seq!['と']);
    assert("ト"@ =~= seq!['ト']);
    assert(gojuon_syllable(seq!['t', 'o'], 'と', 'ト'));
    reveal_strlit("な");
    reveal_strlit("ナ");
    assert("な"@ =~= seq!['な']);
    assert("ナ"@ =~= seq!['ナ']);
    assert(gojuon_syllable(seq!['n', 'a'], 'な', 'ナ'));
    reveal_strlit("に");
    reveal_strlit("ニ");
    assert("に"@ =~= seq!['に']);
    assert("ニ"@ =~= seq!['ニ']);
    assert(gojuon_syllable(seq!['n', 'i'], 'に', 'ニ'));
    reveal_strlit("ぬ");
    reveal_strlit("ヌ");
    assert("ぬ"@ =~= seq!['ぬ']);
    assert("ヌ"@ =~= seq!['ヌ']);
    assert(gojuon_syllable(seq!['n', 'u'], 'ぬ', 'ヌ'));
    reveal_strlit("ね");
    reveal_strlit("ネ");
    assert("ね"@ =~= seq!['ね']);
    assert("ネ"@ =~= seq!['ネ']);
    assert(gojuon_syllable(seq!['n', 'e'], 'ね', 'ネ'));
    reveal_strlit("の");
    reveal_strlit("ノ");
    assert("の"@ =~= seq!['の']);
    assert("ノ"@ =~= seq!['ノ']);
    assert(gojuon_syllable(seq!['n', 'o'], 'の', 'ノ'));
    reveal_strlit("は");
    reveal_strlit("ハ");
    assert("は"@ =~= seq!['は']);
    assert("ハ"@ =~= seq!['ハ']);
    assert(gojuon_syllable(seq!['h', 'a'], 'は', 'ハ'));
    reveal_strlit("ひ");
    reveal_strlit("ヒ");
    assert("ひ"@ =~= seq!['ひ']);
    assert("ヒ"@ =~= seq!['ヒ']);
    assert(gojuon_syllable(seq!['h', 'i'], 'ひ', 'ヒ'));
    reveal_strlit("ふ");
    reveal_strlit("フ");
    assert("ふ"@ =~= seq!['ふ']);
    assert("フ"@ =~= seq!['フ']);
    assert(gojuon_syllable(seq!['f', 'u'], 'ふ', 'フ'));
    reveal_strlit("へ");
    reveal_strlit("ヘ");
    assert("へ"@ =~= seq!['へ']);
    assert("ヘ"@ =~= seq!['ヘ']);
    assert(gojuon_syllable(seq!['h', 'e'], 'へ', 'ヘ'));
    reveal_strlit("ほ");
    reveal_strlit("ホ");
    assert("ほ"@ =~= seq!['ほ']);
    assert("ホ"@ =~= seq!['ホ']);
    assert(gojuon_syllable(seq!['h', 'o'], 'ほ', 'ホ'));
    reveal_strlit("ま");
    reveal_strlit("マ");
    assert("ま"@ =~= seq!['ま']);
    assert("マ"@ =~= seq!['マ']);
    assert(gojuon_syllable(seq!['m', 'a'], 'ま', 'マ'));
    reveal_strlit("み");
    reveal_strlit("ミ");
    assert("み"@ =~= seq!['み']);
    assert("ミ"@ =~= seq!['ミ']);
    assert(gojuon_syllable(seq!['m', 'i'], 'み', 'ミ'));
    reveal_strlit("む");
    reveal_strlit("ム");
    assert("む"@ =~= seq!['む']);
    assert("ム"@ =~= seq!['ム']);
    assert(gojuon_syllable(seq!['m', 'u'], 'む', 'ム'));
    reveal_strlit("め");
    reveal_strlit("メ");
    assert("め"@ =~= seq!['め']);
    assert("メ"@ =~= seq!['メ']);
    assert(gojuon_syllable(seq!['m', 'e'], 'め', 'メ'));
    reveal_strlit("も");
    reveal_strlit("モ");
    assert("も"@ =~= seq!['も']);
    assert("モ"@ =~= seq!['モ']);
    assert(gojuon_syllable(seq!['m', 'o'], 'も', 'モ'));
    reveal_strlit("や");
    reveal_strlit("ヤ");
    assert("や"@ =~= seq!['や']);
    assert("ヤ"@ =~= seq!['ヤ']);
    assert(gojuon_syllable(seq!['y', 'a'], 'や', 'ヤ'));
    reveal_strlit("ゆ");
    reveal_strlit("ユ");
    assert("ゆ"@ =~= seq!['ゆ']);
    assert("ユ"@ =~= seq!['ユ']);
    assert(gojuon_syllable(seq!['y', 'u'], 'ゆ', 'ユ'));
    reveal_strlit("よ");
    reveal_strlit("ヨ");
    assert("よ"@ =~= seq!['よ']);
    assert("ヨ"@ =~= seq!['ヨ']);
    assert(gojuon_syllable(seq!['y', 'o'], 'よ', 'ヨ'));
    reveal_strlit("ら");
    reveal_strlit("ラ");
    assert("ら"@ =~= seq!['ら']);
    assert("ラ"@ =~= seq!['ラ']);
    assert(gojuon_syllable(seq!['r', 'a'], 'ら', 'ラ'));
    reveal_strlit("り");
    reveal_strlit("リ");
    assert("り"@ =~= seq!['り']);
    assert("リ"@ =~= seq!['リ']);
    assert(gojuon_syllable(seq!['r', 'i'], 'り', 'リ'));
    reveal_strlit("る");
    reveal_strlit("ル");
    assert("る"@ =~= seq!['る']);
    assert("ル"@ =~= seq!['ル']);
    assert(gojuon_syllable(seq!['r', 'u'], 'る', 'ル'));
    reveal_strlit("れ");
    reveal_strlit("レ");
    assert("れ"@ =~= seq!['れ']);
    assert("レ"@ =~= seq!['レ']);
    assert(gojuon_syllable(seq!['r', 'e'], 'れ', 'レ'));
    reveal_strlit("ろ");
    reveal_strlit("ロ");
    assert("ろ"@ =~= seq!['ろ']);
    assert("ロ"@ =~= seq!['ロ']);
    assert(gojuon_syllable(seq!['r', 'o'], 'ろ', 'ロ'));
    reveal_strlit("わ");
    reveal_strlit("ワ");
    assert("わ"@ =~= seq!['わ']);
    assert("ワ"@ =~= seq!['ワ']);
    assert(gojuon_syllable(seq!['w', 'a'], 'わ', 'ワ'));
    reveal_strlit("を");
    reveal_strlit("ヲ");
    assert("を"@ =~= seq!['を']);
    assert("ヲ"@ =~= seq!['ヲ']);
    assert(gojuon_syllable(seq!['w', 'o'], 'を', 'ヲ'));
    reveal_strlit("が");
    reveal_strlit("ガ");
    assert("が"@ =~= seq!['が']);
    assert("ガ"@ =~= seq!['ガ']);
    assert(gojuon_syllable(seq!['g', 'a'], 'が', 'ガ'));
    reveal_strlit("ぎ");
    reveal_strlit("ギ");
    assert("ぎ"@ =~= seq!['ぎ']);
    assert("ギ"@ =~= seq!['ギ']);
    assert(gojuon_syllable(seq!['g', 'i'], 'ぎ', 'ギ'));
    reveal_strlit("ぐ");
    reveal_strlit("グ");
    assert("ぐ"@ =~= seq!['ぐ']);
    assert("グ"@ =~= seq!['グ']);
    assert(gojuon_syllable(seq!['g', 'u'], 'ぐ', 'グ'));
    reveal_strlit("げ");
    reveal_strlit("ゲ");
    assert("げ"@ =~= seq!['げ']);
    assert("ゲ"@ =~= seq!['ゲ']);
    assert(gojuon_syllable(seq!['g', 'e'], 'げ', 'ゲ'));
    reveal_strlit("ご");
    reveal_strlit("ゴ");
    assert("ご"@ =~= seq!['ご']);
    assert("ゴ"@ =~= seq!['ゴ']);
    assert(gojuon_syllable(seq!['g', 'o'], 'ご', 'ゴ'));
    reveal_strlit("ざ");
    reveal_strlit("ザ");
    assert("ざ"@ =~= seq!['ざ']);
    assert("ザ"@ =~= seq!['ザ']);
    assert(gojuon_syllable(seq!['z', 'a'], 'ざ', 'ザ'));
    reveal_strlit("じ");
    reveal_strlit("ジ");
    assert("じ"@ =~= seq!['じ']);
    assert("ジ"@ =~= seq!['ジ']);
    assert(gojuon_syllable(seq!['j', 'i'], 'じ', 'ジ'));
    reveal_strlit("ず");
    reveal_strlit("ズ");
    assert("ず"@ =~= seq!['ず']);
    assert("ズ"@ =~= seq!['ズ']);
    assert(gojuon_syllable(seq!['z', 'u'], 'ず', 'ズ'));
    reveal_strlit("ぜ");
    reveal_strlit("ゼ");
    assert("ぜ"@ =~= seq!['ぜ']);
    assert("ゼ"@ =~= seq!['ゼ']);
    assert(gojuon_syllable(seq!['z', 'e'], 'ぜ', 'ゼ'));
    reveal_strlit("ぞ");
    reveal_strlit("ゾ");
    assert("ぞ"@ =~= seq!['ぞ']);
    assert("ゾ"@ =~= seq!['ゾ']);
    assert(gojuon_syllable(seq!['z', 'o'], 'ぞ', 'ゾ'));
    reveal_strlit("だ");
    reveal_strlit("ダ");
    assert("だ"@ =~= seq!['だ']);
    assert("ダ"@ =~= seq!['ダ']);
    assert(gojuon_syllable(seq!['d', 'a'], 'だ', 'ダ'));
    reveal_strlit("で");
    reveal_strlit("デ");
    assert("で"@ =~= seq!['で']);
    assert("デ"@ =~= seq!['デ']);
    assert(gojuon_syllable(seq!['d', 'e'], 'で', 'デ'));
    reveal_strlit("ど");
    reveal_strlit("ド");
    assert("ど"@ =~= seq!['ど']);
    assert("ド"@ =~= seq!['ド']);
    assert(gojuon_syllable(seq!['d', 'o'], 'ど', 'ド'));
    reveal_strlit("ば");
    reveal_strlit("バ");
    assert("ば"@ =~= seq!['ば']);
    assert("バ"@ =~= seq!['バ']);
    assert(gojuon_syllable(seq!['b', 'a'], 'ば', 'バ'));
    reveal_strlit("び");
    reveal_strlit("ビ");
    assert("び"@ =~= seq!['び']);
    assert("ビ"@ =~= seq!['ビ']);
    assert(gojuon_syllable(seq!['b', 'i'], 'び', 'ビ'));
    reveal_strlit("ぶ");
    reveal_strlit("ブ");
    assert("ぶ"@ =~= seq!['ぶ']);
    assert("ブ"@ =~= seq!['ブ']);
    assert(gojuon_syllable(seq!['b', 'u'], 'ぶ', 'ブ'));
    reveal_strlit("べ");
    reveal_strlit("ベ");
    assert("べ"@ =~= seq!['べ']);
    assert("ベ"@ =~= seq!['ベ']);
    assert(gojuon_syllable(seq!['b', 'e'], 'べ', 'ベ'));
    reveal_strlit("ぼ");
    reveal_strlit("ボ");
    assert("ぼ"@ =~= seq!['ぼ']);
    assert("ボ"@ =~= seq!['ボ']);
    assert(gojuon_syllable(seq!['b', 'o'], 'ぼ', 'ボ'));
    reveal_strlit("ぱ");
    reveal_strlit("パ");
    assert("ぱ"@ =~= seq!['ぱ']);
    assert("パ"@ =~= seq!['パ']);
    assert(gojuon_syllable(seq!['p', 'a'], 'ぱ', 'パ'));
    reveal_strlit("ぴ");
    reveal_strlit("ピ");
    assert("ぴ"@ =~= seq!['ぴ']);
    assert("ピ"@ =~= seq!['ピ']);
    assert(gojuon_syllable(seq!['p', 'i'], 'ぴ', 'ピ'));
    reveal_strlit("ぷ");
    reveal_strlit("プ");
    assert("ぷ"@ =~= seq!['ぷ']);
    assert("プ"@ =~= seq!['プ']);
    assert(gojuon_syllable(seq!['p', 'u'], 'ぷ', 'プ'));
    reveal_strlit("ぺ");
    reveal_strlit("ペ");
    assert("ぺ"@ =~= seq!['ぺ']);
    assert("ペ"@ =~= seq!['ペ']);
    assert(gojuon_syllable(seq!['p', 'e'], 'ぺ', 'ペ'));
    reveal_strlit("ぽ");
    reveal_strlit("ポ");
    assert("ぽ"@ =~= seq!['ぽ']);
    assert("ポ"@ =~= seq!['ポ']);
    assert(gojuon_syllable(seq!['p', 'o'], 'ぽ', 'ポ'));
}

} // verus!
