//! Each kanji's top-level components (語 is made of 言 and 吾), read from
//! its KanjiVG file on first request and kept by kanji id.
use vstd::prelude::*;

use std::collections::HashMap;
use std::sync::Arc;

use crate::dictionary::Kanji;
use crate::svg_cache::{build_unicode_index, string_views, svg_file, svg_file_path, unicode_index};
use crate::text::{replace_all, replaced};
use crate::xml::{
    attribute, attribute_value, has_tag_name, is_element_named, parse_xml, xml_document, NodeView,
    XmlNode,
};

verus! {

broadcast use vstd::std_specs::hash::group_hash_axioms;

/// The node carries a `kvg_element` attribute.
pub open spec fn has_element_name(n: NodeView) -> bool {
    attribute_value(n.attributes, "kvg_element"@) is Some
}

/// Node `i` is the group of a whole kanji: a `g` element with a
/// `kvg_element` attribute whose parent has no such attribute.
pub open spec fn is_kanji_group(nodes: Seq<NodeView>, i: int) -> bool {
    is_element_named(nodes[i], "g"@) && has_element_name(nodes[i]) && match nodes[i].parent {
        None => true,
        Some(p) => !(p < nodes.len() && has_element_name(nodes[p as int])),
    }
}

/// The first kanji group at or after position `i`, in document order.
pub open spec fn first_kanji_group(nodes: Seq<NodeView>, i: int) -> Option<int>
    decreases nodes.len() - i,
{
    if i < 0 || i >= nodes.len() {
        None
    } else if is_kanji_group(nodes, i) {
        Some(i)
    } else {
        first_kanji_group(nodes, i + 1)
    }
}

/// The `kvg_element` names of the `g` children of node `r` among the
/// first `upto` nodes, in document order.
pub open spec fn child_components(nodes: Seq<NodeView>, r: int, upto: int) -> Seq<Seq<char>>
    decreases upto,
{
    if upto <= 0 || upto > nodes.len() {
        Seq::empty()
    } else {
        let n = nodes[upto - 1];
        child_components(nodes, r, upto - 1) + if n.parent == Some(r as usize) && is_element_named(
            n,
            "g"@,
        ) && has_element_name(n) {
            seq![attribute_value(n.attributes, "kvg_element"@).unwrap()]
        } else {
            Seq::empty()
        }
    }
}

/// The top-level components of the kanji of a KanjiVG file: the names of
/// the child groups of its first kanji group. Empty when the file is not
/// XML, has no kanji group, or the kanji is atomic.
pub open spec fn components_of(raw: Seq<char>) -> Seq<Seq<char>> {
    match xml_document(replaced(raw, "kvg:"@, "kvg_"@)) {
        None => Seq::empty(),
        Some(nodes) => match first_kanji_group(nodes, 0) {
            None => Seq::empty(),
            Some(r) => child_components(nodes, r, nodes.len() as int),
        },
    }
}

/// Whether node `i` is the group of a whole kanji.
fn kanji_group_at(nodes: &Vec<XmlNode>, i: usize) -> (res: bool)
    requires
        i < nodes@.len(),
    ensures
        res == is_kanji_group(nodes@.map_values(|n: XmlNode| n@), i as int),
{
    let ghost nv = nodes@.map_values(|n: XmlNode| n@);
    let node = &nodes[i];
    if !has_tag_name(node, "g") || attribute(node, "kvg_element").is_none() {
        return false;
    }
    match node.parent {
        None => true,
        Some(p) => {
            if p < nodes.len() {
                assert(nv[p as int] == nodes@[p as int]@);
                attribute(&nodes[p], "kvg_element").is_none()
            } else {
                true
            }
        },
    }
}

/// The top-level components of the kanji of a KanjiVG file, e.g. `[言, 吾]`
/// for 語; empty for an atomic kanji such as 木 and for a file that does
/// not parse.
pub fn parse_components(raw_text: &str) -> (res: Vec<String>)
    ensures
        string_views(res@) == components_of(raw_text@),
{
    proof {
        reveal_strlit("kvg:");
    }
    let text = replace_all(raw_text, "kvg:", "kvg_");
    let nodes = match parse_xml(text.as_str()) {
        Some(nodes) => nodes,
        None => return Vec::new(),
    };
    let ghost nv = nodes@.map_values(|n: XmlNode| n@);
    let mut r: usize = 0;
    while r < nodes.len() && !kanji_group_at(&nodes, r)
        invariant
            nv == nodes@.map_values(|n: XmlNode| n@),
            r <= nodes@.len(),
            first_kanji_group(nv, 0) == first_kanji_group(nv, r as int),
        decreases nodes@.len() - r,
    {
        r = r + 1;
    }
    if r >= nodes.len() {
        return Vec::new();
    }
    let mut out: Vec<String> = Vec::new();
    let mut j: usize = 0;
    while j < nodes.len()
        invariant
            nv == nodes@.map_values(|n: XmlNode| n@),
            r < nodes@.len(),
            j <= nodes@.len(),
            string_views(out@) == child_components(nv, r as int, j as int),
        decreases nodes@.len() - j,
    {
        let node = &nodes[j];
        let ghost before = out@;
        if node.parent == Some(r) && has_tag_name(node, "g") {
            if let Some(name) = attribute(node, "kvg_element") {
                out.push(name.clone());
                assert(string_views(out@) =~= string_views(before).push(name@));
            }
        }
        j = j + 1;
    }
    out
}

/// Component lists by kanji id, filled lazily from the KanjiVG files.
pub struct RadicalCache {
    data: HashMap<i32, Vec<String>>,
    svg_path: String,
    unicode_map: HashMap<i32, String>,
}

impl RadicalCache {
    /// The cached component lists by kanji id.
    pub closed spec fn cached(&self) -> Map<i32, Vec<String>> {
        self.data@
    }

    /// The folder of the KanjiVG files.
    pub closed spec fn folder(&self) -> Seq<char> {
        self.svg_path@
    }

    /// The code point name of each known kanji id.
    pub closed spec fn index(&self) -> Map<i32, String> {
        self.unicode_map@
    }

    /// An empty cache that knows no kanji and no folder.
    pub fn new() -> (res: Self)
        ensures
            res.cached() == Map::<i32, Vec<String>>::empty(),
            res.folder().len() == 0,
            res.index() == Map::<i32, String>::empty(),
    {
        RadicalCache { data: HashMap::new(), svg_path: String::new(), unicode_map: HashMap::new() }
    }

    /// Remembers the folder and each kanji's code point name; reads no file.
    pub fn prepare(&mut self, kanji_db: &[Arc<Kanji>], svg_path: &str)
        ensures
            final(self).folder() == svg_path@,
            final(self).index() == unicode_index(kanji_db@),
            final(self).cached() == old(self).cached(),
    {
        self.svg_path = String::from_str(svg_path);
        self.unicode_map = build_unicode_index(kanji_db);
    }

    /// The file to read for a kanji's components: `None` when they are
    /// already cached or the kanji is unknown.
    pub fn pending_file(&self, kanji_id: i32) -> (res: Option<String>)
        ensures
            self.cached().contains_key(kanji_id) ==> res is None,
            !self.cached().contains_key(kanji_id) ==> match res {
                Some(p) => self.index().contains_key(kanji_id) && p@ == svg_file(
                    self.folder(),
                    self.index()[kanji_id]@,
                ),
                None => !self.index().contains_key(kanji_id),
            },
    {
        if self.data.contains_key(&kanji_id) {
            return None;
        }
        match self.unicode_map.get(&kanji_id) {
            Some(unicode) => Some(svg_file_path(self.svg_path.as_str(), unicode.as_str())),
            None => None,
        }
    }

    /// Takes in the text of a kanji's KanjiVG file and caches its
    /// components (an empty list when it has none or does not parse).
    pub fn store(&mut self, kanji_id: i32, content: &str)
        ensures
            final(self).cached().contains_key(kanji_id),
            string_views(final(self).cached()[kanji_id]@) == components_of(content@),
            final(self).cached().remove(kanji_id) == old(self).cached().remove(kanji_id),
            final(self).folder() == old(self).folder(),
            final(self).index() == old(self).index(),
    {
        let comps = parse_components(content);
        self.data.insert(kanji_id, comps);
        assert(self.data@.remove(kanji_id) =~= old(self).data@.remove(kanji_id));
    }

    /// The cached components of a kanji.
    pub fn get(&self, kanji_id: i32) -> (res: Option<&Vec<String>>)
        ensures
            match res {
                Some(v) => self.cached().contains_key(kanji_id) && *v == self.cached()[kanji_id],
                None => !self.cached().contains_key(kanji_id),
            },
    {
        self.data.get(&kanji_id)
    }
}

} // verus!
