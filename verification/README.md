# kanji_master

A kanji study library verified with Verus, and the desktop backend around it.

`src/` holds the verified logic:

- `romaji_kana`: romaji to hiragana/katakana conversion, live typing included.
- `dictionary`, `service`: kanji records built from the database rows, and the
  views the frontend asks for.
- `browse`, `assistant`: kanji list and home search filters, the trailing kana of
  the romaji tool and the kanji the assistant suggests for it.
- `translation`: the user's translations and the translation editor.
- `cards`, `srs`: flash-card sessions, decks and the integer side of scheduling.
- `anki_export`: the tab-separated export and the export tool's state.
- `svg_cache`, `radicals`, `xml`: stroke paths and components from KanjiVG files.
- `language`, `localization`, `config`: interface texts and first-run data setup.
- `tabs`, `text`, `text_map`: the tab strip and string/map primitives.

`app/` is ordinary Rust: configuration and data files on disk, SQLite queries,
floating-point stroke geometry and handwriting recognition, study progress with
its SM-2 arithmetic, and the commands a frontend calls.
