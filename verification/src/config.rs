//! The defaults a stored configuration falls back to, and the decision of
//! which bundled data a fresh installation points at.
use vstd::prelude::*;

verus! {

/// Dark mode is on unless a stored configuration says otherwise.
pub fn default_dark_mode() -> (res: bool)
    ensures
        res,
{
    true
}

/// The interface language when a stored configuration names none.
pub fn default_interface_language() -> (res: String)
    ensures
        res@ == "English"@,
{
    String::from_str("English")
}

/// A stored configuration without the flag has already been through the
/// first-run tour: an upgrading user knows the app.
pub fn default_onboarding_seen() -> (res: bool)
    ensures
        res,
{
    true
}

/// What the data check found on disk.
pub struct DataOnDisk {
    /// The configured kanji database exists.
    pub db_exists: bool,
    /// The bundled kanji database exists.
    pub bundled_db_exists: bool,
    /// The configured KanjiVG folder exists.
    pub svg_exists: bool,
    /// The bundled KanjiVG folder is a directory.
    pub bundled_svg_is_dir: bool,
    /// The configured meanings file exists.
    pub localization_exists: bool,
    /// The seeded `en.json` meanings file exists in the config folder.
    pub seeded_en_exists: bool,
}

/// Which configured paths to repoint at the available data.
pub struct DataFixes {
    /// Point the database path at the bundled database.
    pub use_bundled_db: bool,
    /// Point the KanjiVG path at the bundled folder.
    pub use_bundled_svg: bool,
    /// Point the meanings path at the seeded `en.json`.
    pub use_seeded_localization: bool,
}

impl DataFixes {
    /// Whether any path changes, so that the configuration must be saved.
    pub fn changed(&self) -> (res: bool)
        ensures
            res == (self.use_bundled_db || self.use_bundled_svg || self.use_seeded_localization),
    {
        self.use_bundled_db || self.use_bundled_svg || self.use_seeded_localization
    }
}

/// A configured path is replaced only when it does not exist and the
/// replacement does: the database and KanjiVG paths by the bundled data,
/// the meanings path by the copy seeded into the config folder.
pub fn data_fixes(found: &DataOnDisk) -> (res: DataFixes)
    ensures
        res.use_bundled_db == (!found.db_exists && found.bundled_db_exists),
        res.use_bundled_svg == (!found.svg_exists && found.bundled_svg_is_dir),
        res.use_seeded_localization == (!found.localization_exists && found.seeded_en_exists),
{
    DataFixes {
        use_bundled_db: !found.db_exists && found.bundled_db_exists,
        use_bundled_svg: !found.svg_exists && found.bundled_svg_is_dir,
        use_seeded_localization: !found.localization_exists && found.seeded_en_exists,
    }
}

} // verus!
