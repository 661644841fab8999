use vstd::prelude::*;

pub mod anki_export;
pub mod assistant;
pub mod browse;
pub mod cards;
pub mod config;
pub mod dictionary;
pub mod language;
pub mod localization;
pub mod radicals;
pub mod romaji_kana;
pub mod service;
pub mod srs;
pub mod svg_cache;
pub mod tabs;
pub mod text;
pub mod text_map;
pub mod translation;
pub mod xml;

verus! {

} // verus!
