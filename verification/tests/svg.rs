use kanji_master::radicals::{parse_components, RadicalCache};
use kanji_master::dictionary::Kanji;
use kanji_master::svg_cache::{parse_svg_paths, svg_file_path, SvgCache};
use std::sync::Arc;

const GO: &str = r#"<?xml version="1.0" encoding="UTF-8"?>
<!DOCTYPE svg PUBLIC "-//W3C//DTD SVG 1.0//EN" "http://www.w3.org/TR/2001/REC-SVG-20010904/DTD/svg10.dtd" [
<!ATTLIST g
xmlns:kvg CDATA #FIXED "http://kanjivg.tagaini.net"
kvg:element CDATA #IMPLIED >
]>
<svg xmlns="http://www.w3.org/2000/svg" width="109" height="109" viewBox="0 0 109 109">
<g id="kvg:StrokePaths_08a9e" style="fill:none;stroke:#000000;">
<g id="kvg:08a9e" kvg:element="語">
	<g id="kvg:08a9e-g1" kvg:element="言" kvg:position="left">
		<path id="kvg:08a9e-s1" d="M20.25,16.88c2.12,1.14,5.37,3.74,6.58,5.32"/>
		<path id="kvg:08a9e-s2" d="M11.87,33.58c2.69,0.49,4.61,0.23,6.64-0.13"/>
	</g>
	<g id="kvg:08a9e-g2" kvg:element="吾" kvg:position="right">
		<g id="kvg:08a9e-g3" kvg:element="五">
			<path id="kvg:08a9e-s3" d="M55.01,17.07c1.36,0.4,3.83,0.35,5.21,0.17"/>
		</g>
	</g>
</g>
</g>
<g id="kvg:StrokeNumbers_08a9e"><text transform="matrix(1 0 0 1 13.50 16.50)">1</text></g>
</svg>"#;

const KI: &str = r#"<svg xmlns="http://www.w3.org/2000/svg" xmlns:kvg="http://kanjivg.tagaini.net">
<g id="kvg:StrokePaths_06728">
<g id="kvg:06728" kvg:element="木" kvg:radical="general">
	<path id="kvg:06728-s1" d="M21.5,46.5c2.5,0.5,5,0.5,7.5,0.25"/>
	<path id="kvg:06728-s2" d="M52.5,12.5c0.5,1.5,0.75,3,0.75,5"/>
</g>
</g>
</svg>"#;

#[test]
fn parse_svg_paths_on_pathless_input_returns_none() {
    assert!(parse_svg_paths("").is_none());
    assert!(parse_svg_paths("<svg></svg>").is_none());
}

#[test]
fn stroke_paths_come_in_document_order() {
    let paths = parse_svg_paths(GO).expect("語 has strokes");
    assert_eq!(paths.len(), 3);
    assert_eq!(paths[0], "M20.25,16.88c2.12,1.14,5.37,3.74,6.58,5.32");
    assert_eq!(paths[2], "M55.01,17.07c1.36,0.4,3.83,0.35,5.21,0.17");
    assert_eq!(parse_svg_paths(KI).unwrap().len(), 2);
    assert!(parse_svg_paths("not even xml").is_none());
}

#[test]
fn components_are_the_direct_child_groups() {
    assert_eq!(parse_components(GO), vec!["言", "吾"]);
    assert_eq!(parse_components(KI), Vec::<String>::new());
    assert_eq!(parse_components("not xml"), Vec::<String>::new());
}

fn kanji(id: i32, unicode: &str) -> Arc<Kanji> {
    Arc::new(Kanji {
        id,
        kanji: String::new(),
        strokes: 0,
        jlpt: String::new(),
        grade: String::new(),
        frequency: String::new(),
        unicode: unicode.to_string(),
        onyomi: String::new(),
        onyomi_romaji: String::new(),
        kunyomi: String::new(),
        kunyomi_romaji: String::new(),
        example: Vec::new(),
    })
}

#[test]
fn caches_load_lazily_by_id() {
    assert_eq!(svg_file_path("data/svg", "8A9E"), "data/svg/08a9e.svg");
    let db = vec![kanji(1, "8A9E"), kanji(2, "6728")];
    let mut svg = SvgCache::new();
    svg.prepare(&db, "svg");
    assert_eq!(svg.pending_file(1).as_deref(), Some("svg/08a9e.svg"));
    assert_eq!(svg.pending_file(3), None);
    assert!(svg.get(1).is_none());
    svg.store(1, "<svg/>");
    assert!(svg.get(1).is_none());
    svg.store(1, GO);
    assert_eq!(svg.get(1).unwrap().len(), 3);
    assert_eq!(svg.pending_file(1), None);

    let mut rad = RadicalCache::new();
    rad.prepare(&db, "svg");
    assert_eq!(rad.pending_file(2).as_deref(), Some("svg/06728.svg"));
    rad.store(2, KI);
    assert_eq!(rad.get(2), Some(&Vec::<String>::new()));
    rad.store(1, GO);
    assert_eq!(rad.get(1).unwrap(), &vec!["言".to_string(), "吾".to_string()]);
}
