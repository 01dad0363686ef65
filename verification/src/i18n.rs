use vstd::prelude::*;

verus! {

broadcast use vstd::string::to_string_from_display_ensures_for_str;

/// The languages the editor's surface can speak.
#[derive(Clone, Copy, PartialEq, Eq, Structural)]
pub enum Language {
    En,
    Pl,
}

/// Every user-visible label and message, resolved for one language.
pub struct TextResources {
    pub file_menu: String,
    pub new_project: String,
    pub open_project: String,
    pub save_project: String,
    pub exit: String,
    pub settings_menu: String,
    pub help_menu: String,
    pub about: String,
    pub timeline: String,
    pub add_clip: String,
    pub remove_clip: String,
    pub split_clip: String,
    pub mark_in: String,
    pub mark_out: String,
    pub tool_hand: String,
    pub tool_scissors: String,
    pub status_ready: String,
    pub status_project_loaded: String,
    pub status_project_saved: String,
    pub err_clip_boundary: String,
    pub err_no_clip_cursor: String,
    pub loading_thumbnails: String,
    pub loading_waveform: String,
    pub loading_language: String,
    pub settings_window_title: String,
    pub language_label: String,
    pub render_button: String,
}

/// The English wording.
pub open spec fn is_english(r: TextResources) -> bool {
    &&& r.file_menu@ == "File"@
    &&& r.new_project@ == "New Project"@
    &&& r.open_project@ == "Open Project"@
    &&& r.save_project@ == "Save Project"@
    &&& r.exit@ == "Exit"@
    &&& r.settings_menu@ == "Settings"@
    &&& r.help_menu@ == "Help"@
    &&& r.about@ == "About"@
    &&& r.timeline@ == "Timeline"@
    &&& r.add_clip@ == "Add Clip"@
    &&& r.remove_clip@ == "Remove Clip"@
    &&& r.split_clip@ == "Split Clip"@
    &&& r.mark_in@ == "Mark In"@
    &&& r.mark_out@ == "Mark Out"@
    &&& r.tool_hand@ == "Hand (A)"@
    &&& r.tool_scissors@ == "Scissors (B)"@
    &&& r.status_ready@ == "Ready"@
    &&& r.status_project_loaded@ == "Project loaded"@
    &&& r.status_project_saved@ == "Project saved"@
    &&& r.err_clip_boundary@ == "Cannot cut at clip boundary"@
    &&& r.err_no_clip_cursor@ == "No clip under cursor"@
    &&& r.loading_thumbnails@ == "Loading thumbnails..."@
    &&& r.loading_waveform@ == "Loading waveform..."@
    &&& r.loading_language@ == "Switching language..."@
    &&& r.settings_window_title@ == "Settings"@
    &&& r.language_label@ == "Language"@
    &&& r.render_button@ == "Render"@
}

/// The Polish wording.
pub open spec fn is_polish(r: TextResources) -> bool {
    &&& r.file_menu@ == "Plik"@
    &&& r.new_project@ == "Nowy projekt"@
    &&& r.open_project@ == "Otwórz projekt"@
    &&& r.save_project@ == "Zapisz projekt"@
    &&& r.exit@ == "Wyjdź"@
    &&& r.settings_menu@ == "Ustawienia"@
    &&& r.help_menu@ == "Pomoc"@
    &&& r.about@ == "O programie"@
    &&& r.timeline@ == "Oś czasu"@
    &&& r.add_clip@ == "Dodaj klip"@
    &&& r.remove_clip@ == "Usuń klip"@
    &&& r.split_clip@ == "Podziel klip"@
    &&& r.mark_in@ == "Początek"@
    &&& r.mark_out@ == "Koniec"@
    &&& r.tool_hand@ == "Rączka (A)"@
    &&& r.tool_scissors@ == "Nożyczki (B)"@
    &&& r.status_ready@ == "Gotowy"@
    &&& r.status_project_loaded@ == "Projekt wczytany"@
    &&& r.status_project_saved@ == "Projekt zapisany"@
    &&& r.err_clip_boundary@ == "Nie można ciąć na granicy klipu"@
    &&& r.err_no_clip_cursor@ == "Brak klipu pod kursorem"@
    &&& r.loading_thumbnails@ == "Ładowanie miniatur..."@
    &&& r.loading_waveform@ == "Ładowanie fali dźwięku..."@
    &&& r.loading_language@ == "Zmiana języka..."@
    &&& r.settings_window_title@ == "Ustawienia"@
    &&& r.language_label@ == "Język"@
    &&& r.render_button@ == "Renderuj"@
}

impl TextResources {
    /// Resolves the full label table for one language.
    pub fn new(lang: Language) -> (r: TextResources)
        ensures
            lang is En ==> is_english(r),
            lang is Pl ==> is_polish(r),
    {
        match lang {
            Language::En => TextResources {
                file_menu: "File".to_string(),
                new_project: "New Project".to_string(),
                open_project: "Open Project".to_string(),
                save_project: "Save Project".to_string(),
                exit: "Exit".to_string(),
                settings_menu: "Settings".to_string(),
                help_menu: "Help".to_string(),
                about: "About".to_string(),
                timeline: "Timeline".to_string(),
                add_clip: "Add Clip".to_string(),
                remove_clip: "Remove Clip".to_string(),
                split_clip: "Split Clip".to_string(),
                mark_in: "Mark In".to_string(),
                mark_out: "Mark Out".to_string(),
                tool_hand: "Hand (A)".to_string(),
                tool_scissors: "Scissors (B)".to_string(),
                status_ready: "Ready".to_string(),
                status_project_loaded: "Project loaded".to_string(),
                status_project_saved: "Project saved".to_string(),
                err_clip_boundary: "Cannot cut at clip boundary".to_string(),
                err_no_clip_cursor: "No clip under cursor".to_string(),
                loading_thumbnails: "Loading thumbnails...".to_string(),
                loading_waveform: "Loading waveform...".to_string(),
                loading_language: "Switching language...".to_string(),
                settings_window_title: "Settings".to_string(),
                language_label: "Language".to_string(),
                render_button: "Render".to_string(),
            },
            Language::Pl => TextResources {
                file_menu: "Plik".to_string(),
                new_project: "Nowy projekt".to_string(),
                open_project: "Otwórz projekt".to_string(),
                save_project: "Zapisz projekt".to_string(),
                exit: "Wyjdź".to_string(),
                settings_menu: "Ustawienia".to_string(),
                help_menu: "Pomoc".to_string(),
                about: "O programie".to_string(),
                timeline: "Oś czasu".to_string(),
                add_clip: "Dodaj klip".to_string(),
                remove_clip: "Usuń klip".to_string(),
                split_clip: "Podziel klip".to_string(),
                mark_in: "Początek".to_string(),
                mark_out: "Koniec".to_string(),
                tool_hand: "Rączka (A)".to_string(),
                tool_scissors: "Nożyczki (B)".to_string(),
                status_ready: "Gotowy".to_string(),
                status_project_loaded: "Projekt wczytany".to_string(),
                status_project_saved: "Projekt zapisany".to_string(),
                err_clip_boundary: "Nie można ciąć na granicy klipu".to_string(),
                err_no_clip_cursor: "Brak klipu pod kursorem".to_string(),
                loading_thumbnails: "Ładowanie miniatur...".to_string(),
                loading_waveform: "Ładowanie fali dźwięku...".to_string(),
                loading_language: "Zmiana języka...".to_string(),
                settings_window_title: "Ustawienia".to_string(),
                language_label: "Język".to_string(),
                render_button: "Renderuj".to_string(),
            },
        }
    }
}

} // verus!
