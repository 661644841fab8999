//! Each kanji's stroke paths, read from its KanjiVG file on first request
//! and kept by kanji id.
use vstd::prelude::*;

use std::collections::HashMap;
use std::sync::Arc;

use crate::dictionary::Kanji;
use crate::text::{lowercase, replace_all, replaced, str_lowercase};
use crate::xml::{
    attribute, attribute_value, has_tag_name, is_element_named, parse_xml, xml_document, NodeView,
    XmlNode,
};

verus! {

broadcast use vstd::std_specs::hash::group_hash_axioms;

/// The `d` attribute of every `path` element that has one, in document
/// order: one string per stroke.
pub open spec fn path_data(nodes: Seq<NodeView>) -> Seq<Seq<char>>
    decreases nodes.len(),
{
    if nodes.len() == 0 {
        Seq::empty()
    } else {
        let n = nodes.last();
        path_data(nodes.drop_last()) + if is_element_named(n, "path"@) && attribute_value(
            n.attributes,
            "d"@,
        ) is Some {
            seq![attribute_value(n.attributes, "d"@).unwrap()]
        } else {
            Seq::empty()
        }
    }
}

/// The stroke paths of a KanjiVG file: its `kvg:` prefixes are turned into
/// `kvg_` so that they parse as plain names, then the path data of the
/// document is taken. `None` when the text is not XML or has no path.
pub open spec fn svg_paths_of(raw: Seq<char>) -> Option<Seq<Seq<char>>> {
    match xml_document(replaced(raw, "kvg:"@, "kvg_"@)) {
        None => None,
        Some(nodes) => if path_data(nodes).len() == 0 {
            None
        } else {
            Some(path_data(nodes))
        },
    }
}

/// The view of each string of a sequence.
pub open spec fn string_views(v: Seq<String>) -> Seq<Seq<char>> {
    v.map_values(|s: String| s@)
}

/// The stroke paths of a KanjiVG file, one `d` string per stroke in
/// drawing order; `None` when the file is not XML or has no stroke.
pub fn parse_svg_paths(raw_text: &str) -> (res: Option<Vec<String>>)
    ensures
        match res {
            Some(v) => svg_paths_of(raw_text@) == Some(string_views(v@)),
            None => svg_paths_of(raw_text@) is None,
        },
{
    proof {
        reveal_strlit("kvg:");
    }
    let text = replace_all(raw_text, "kvg:", "kvg_");
    let doc = parse_xml(text.as_str());
    let nodes = match doc {
        Some(nodes) => nodes,
        None => return None,
    };
    let ghost nv = nodes@.map_values(|n: XmlNode| n@);
    let mut paths: Vec<String> = Vec::new();
    let mut i: usize = 0;
    while i < nodes.len()
        invariant
            nv == nodes@.map_values(|n: XmlNode| n@),
            i <= nodes@.len(),
            string_views(paths@) == path_data(nv.subrange(0, i as int)),
        decreases nodes@.len() - i,
    {
        let node = &nodes[i];
        assert(nv.subrange(0, i + 1).drop_last() =~= nv.subrange(0, i as int));
        let ghost before = paths@;
        if has_tag_name(node, "path") {
            if let Some(d) = attribute(node, "d") {
                paths.push(d.clone());
                assert(string_views(paths@) =~= string_views(before).push(d@));
            }
        }
        i = i + 1;
    }
    assert(nv.subrange(0, i as int) =~= nv);
    if paths.len() == 0 {
        None
    } else {
        Some(paths)
    }
}

/// The KanjiVG file of a kanji: `<dir>/0<unicode in lowercase>.svg`.
pub open spec fn svg_file(dir: Seq<char>, unicode: Seq<char>) -> Seq<char> {
    dir + "/0"@ + str_lowercase(unicode) + ".svg"@
}

/// The path of the KanjiVG file of a kanji.
pub fn svg_file_path(dir: &str, unicode: &str) -> (res: String)
    ensures
        res@ == svg_file(dir@, unicode@),
{
    let mut path = String::from_str(dir);
    path.append("/0");
    let lower = lowercase(unicode);
    path.append(lower.as_str());
    path.append(".svg");
    path
}

/// The kanji ids of the dictionary mapped to their code point names; a
/// later kanji with the same id replaces an earlier one.
pub open spec fn unicode_index(kanji: Seq<Arc<Kanji>>) -> Map<i32, String>
    decreases kanji.len(),
{
    if kanji.len() == 0 {
        Map::empty()
    } else {
        unicode_index(kanji.drop_last()).insert(kanji.last().id, kanji.last().unicode)
    }
}

/// The code point name of each kanji id, for the kanji of `kanji_db`.
pub fn build_unicode_index(kanji_db: &[Arc<Kanji>]) -> (res: HashMap<i32, String>)
    ensures
        res@ == unicode_index(kanji_db@),
{
    let mut map: HashMap<i32, String> = HashMap::new();
    let mut i: usize = 0;
    while i < kanji_db.len()
        invariant
            i <= kanji_db@.len(),
            map@ == unicode_index(kanji_db@.subrange(0, i as int)),
        decreases kanji_db@.len() - i,
    {
        let k = &kanji_db[i];
        assert(kanji_db@.subrange(0, i + 1).drop_last() =~= kanji_db@.subrange(0, i as int));
        map.insert(k.id, k.unicode.clone());
        i = i + 1;
    }
    assert(kanji_db@.subrange(0, i as int) =~= kanji_db@);
    map
}

/// Stroke paths by kanji id, filled lazily from the KanjiVG files.
pub struct SvgCache {
    data: HashMap<i32, Vec<String>>,
    svg_path: String,
    unicode_map: HashMap<i32, String>,
}

impl SvgCache {
    /// The cached stroke paths by kanji id.
    pub closed spec fn cached(&self) -> Map<i32, Vec<String>> {
        self.data@
    }

    /// The folder of the KanjiVG files.
    pub closed spec fn folder(&self) -> Seq<char> {
        self.svg_path@
    }

    /// The code point name of each known kanji id.
    pub closed spec fn index(&self) -> Map<i32, String> {
        self.unicode_map@
    }

    /// An empty cache that knows no kanji and no folder.
    pub fn new() -> (res: Self)
        ensures
            res.cached() == Map::<i32, Vec<String>>::empty(),
            res.folder().len() == 0,
            res.index() == Map::<i32, String>::empty(),
    {
        SvgCache { data: HashMap::new(), svg_path: String::new(), unicode_map: HashMap::new() }
    }

    /// Remembers the folder and each kanji's code point name; reads no file.
    pub fn prepare(&mut self, kanji_db: &[Arc<Kanji>], svg_path: &str)
        ensures
            final(self).folder() == svg_path@,
            final(self).index() == unicode_index(kanji_db@),
            final(self).cached() == old(self).cached(),
    {
        self.svg_path = String::from_str(svg_path);
        self.unicode_map = build_unicode_index(kanji_db);
    }

    /// The file to read for a kanji's strokes: `None` when they are
    /// already cached or the kanji is unknown.
    pub fn pending_file(&self, kanji_id: i32) -> (res: Option<String>)
        ensures
            self.cached().contains_key(kanji_id) ==> res is None,
            !self.cached().contains_key(kanji_id) ==> match res {
                Some(p) => self.index().contains_key(kanji_id) && p@ == svg_file(
                    self.folder(),
                    self.index()[kanji_id]@,
                ),
                None => !self.index().contains_key(kanji_id),
            },
    {
        if self.data.contains_key(&kanji_id) {
            return None;
        }
        match self.unicode_map.get(&kanji_id) {
            Some(unicode) => Some(svg_file_path(self.svg_path.as_str(), unicode.as_str())),
            None => None,
        }
    }

    /// Takes in the text of a kanji's KanjiVG file: its stroke paths are
    /// cached when the file has any, and nothing changes otherwise.
    pub fn store(&mut self, kanji_id: i32, content: &str)
        ensures
            svg_paths_of(content@) is Some ==> final(self).cached().contains_key(kanji_id)
                && string_views(final(self).cached()[kanji_id]@) == svg_paths_of(content@).unwrap()
                && final(self).cached().remove(kanji_id) == old(self).cached().remove(kanji_id),
            svg_paths_of(content@) is None ==> final(self).cached() == old(self).cached(),
            final(self).folder() == old(self).folder(),
            final(self).index() == old(self).index(),
    {
        if let Some(paths) = parse_svg_paths(content) {
            self.data.insert(kanji_id, paths);
            assert(self.data@.remove(kanji_id) =~= old(self).data@.remove(kanji_id));
        }
    }

    /// The cached stroke paths of a kanji.
    pub fn get(&self, kanji_id: i32) -> (res: Option<&Vec<String>>)
        ensures
            match res {
                Some(v) => self.cached().contains_key(kanji_id) && *v == self.cached()[kanji_id],
                None => !self.cached().contains_key(kanji_id),
            },
    {
        self.data.get(&kanji_id)
    }
}

} // verus!
