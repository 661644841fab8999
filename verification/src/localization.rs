//! The interface texts of a language, as the localization files hold them,
//! and where the data files are.
use vstd::prelude::*;

use crate::translation::MessageTranslationData;

verus! {

/// Where the data files are.
#[derive(Clone, Debug, Default, PartialEq)]
pub struct Paths {
    pub path_to_db_core: String,
    pub path_to_localization: String,
    pub path_to_kanji_localization: String,
}

/// The interface texts of one language.
#[derive(Clone, Debug, Default, PartialEq)]
pub struct Localization {
    pub lang: String,
    pub local: Local,
}

/// The interface texts, by screen.
#[derive(Clone, Debug, Default, PartialEq)]
pub struct Local {
    pub home: Home,
    pub top_bar: TopBar,
    pub settings: Settings,
    pub screens: Screens,
    pub kana: Kana,
}

/// Texts of the home screen.
#[derive(Clone, Debug, Default, PartialEq)]
pub struct Home {
    pub kanji_search_hint: String,
    pub kanji_not_found: String,
}

/// Texts of the top bar and its menus.
#[derive(Clone, Debug, Default, PartialEq)]
pub struct TopBar {
    pub kanji: KanjiTopBar,
    pub cards: CardsTopBar,
    pub kana: KanaTopBar,
    pub tools: Tools,
}

/// Texts of the kanji menu.
#[derive(Clone, Debug, Default, PartialEq)]
pub struct KanjiTopBar {
    pub title: String,
    pub all: String,
}

/// Texts of the flash-card screens.
#[derive(Clone, Debug, Default, PartialEq)]
pub struct CardsTopBar {
    pub title: String,
    pub card_setup_title: String,
    pub jlpt_level: String,
    pub card_count: String,
    pub card_setup_start: String,
    pub custom_deck_title: String,
    pub manage_decks: String,
    pub my_decks: String,
    pub no_custom_decks_created: String,
    pub delete_deck: String,
    pub edit_deck: String,
    pub play_deck: String,
    pub session_complete: String,
    pub return_to_menu: String,
    pub card: String,
    pub exit_training: String,
    pub onyomi: String,
    pub kunyomi: String,
    pub click_to_flip: String,
    pub next_card: String,
    pub back: String,
    pub deck_manager: String,
    pub deck_name: String,
    pub update_deck: String,
    pub save_deck: String,
    pub avaliable_kanji: String,
    pub search_kanji_hint: String,
    pub add_kanji: String,
    pub type_search_hint: String,
    pub deck_content: String,
}

/// Texts of the kana menu.
#[derive(Clone, Debug, Default, PartialEq)]
pub struct KanaTopBar {
    pub title: String,
    pub hiragana: String,
    pub katakana: String,
}

/// Texts of the tools menu and its tools.
#[derive(Clone, Debug, Default, PartialEq)]
pub struct Tools {
    pub title: String,
    pub romaji_to_kana: String,
    pub translate_kanji: String,
    pub romaji_to_kana_locale: RomajiToKana,
    pub translate_kanji_locale: TranslateToKanji,
}

/// Texts of the romaji tool.
#[derive(Clone, Debug, Default, PartialEq)]
pub struct RomajiToKana {
    pub title: String,
    pub output_mode: String,
    pub output_hiragana: String,
    pub output_katakana: String,
    pub input: String,
    pub hint_input: String,
    pub output: String,
    pub copy_button: String,
}

/// Texts and messages of the translation editor.
#[derive(Clone, Debug, Default, PartialEq)]
pub struct TranslateToKanji {
    pub file_load_success: String,
    pub file_not_found_or_invalid: String,
    pub saved_at_id: String,
    pub error_searialize_json: String,
    pub error_create_file: String,
    pub found: String,
    pub not_found: String,
    pub title: String,
    pub jump_to: String,
    pub hint_kanji_input: String,
    pub go_button: String,
    pub save_progress_button: String,
    pub all_kanji_processed: String,
    pub meaning: String,
    pub hint_meaning_input: String,
    pub examples: String,
    pub hint_examples_input: String,
    pub error_buffer_mismatch: String,
    pub previous_button: String,
    pub next_button: String,
}

/// Texts of the settings window.
#[derive(Clone, Debug, Default, PartialEq)]
pub struct Settings {
    pub title: String,
    pub lang: String,
    pub kanji_localization: String,
    pub lang_button: String,
    pub interface_font_size: String,
    pub kanji_animation_speed: String,
    pub kanji_font_size: String,
    pub auto_save_progress: String,
    pub auto_save_frequency: String,
    pub open_last_session_at_startup: String,
    pub startup_screen: String,
    pub confrim_card_delete: String,
    pub confrim_progress_reset: String,
    pub show_kanji_meaning: String,
    pub tools: String,
    pub create_default_localization_file: String,
    pub focus_on_search: String,
}

/// Texts shared by the screens.
#[derive(Clone, Debug, Default, PartialEq)]
pub struct Screens {
    pub search: String,
    pub current_kanji: CurrentKanji,
}

/// Texts of the kanji detail screen.
#[derive(Clone, Debug, Default, PartialEq)]
pub struct CurrentKanji {
    pub back_button: String,
    pub information: String,
    pub meaning: String,
    pub onyomi: String,
    pub onyomi_romaji: String,
    pub kunyomi: String,
    pub kunyomi_romaji: String,
    pub strokes: String,
    pub jlpt: String,
    pub grade: String,
    pub frequency: String,
    pub examples: String,
}

/// Texts of the kana chart.
#[derive(Clone, Debug, Default, PartialEq)]
pub struct Kana {
    pub title: String,
    pub hiragana: String,
    pub katakana: String,
}

impl TranslateToKanji {
    /// The status messages of the translation editor in this language.
    pub fn message_data(&self) -> (res: MessageTranslationData)
        ensures
            res.file_load_success == self.file_load_success,
            res.file_not_found_or_invalid == self.file_not_found_or_invalid,
            res.saved_at_id == self.saved_at_id,
            res.error_searialize_json == self.error_searialize_json,
            res.error_create_file == self.error_create_file,
    {
        MessageTranslationData {
            file_load_success: self.file_load_success.clone(),
            file_not_found_or_invalid: self.file_not_found_or_invalid.clone(),
            saved_at_id: self.saved_at_id.clone(),
            error_searialize_json: self.error_searialize_json.clone(),
            error_create_file: self.error_create_file.clone(),
        }
    }
}


/// Texts of the training menu of the earlier top bar.
#[derive(Clone, Debug, Default, PartialEq)]
pub struct TranningTopBar {
    pub title: String,
    pub jlpt: String,
    pub kanaken: String,
    pub custom: String,
}

/// Texts of the card menu of the earlier top bar.
#[derive(Clone, Debug, Default, PartialEq)]
pub struct CardTopBar {
    pub title: String,
    pub new: String,
    pub open: String,
}

} // verus!
