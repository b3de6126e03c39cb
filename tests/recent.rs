use id3_manager::recent::{add_recent_file, remove_recent_file};
use id3_manager::{load_recent_files, AppTheme};

fn strings(v: &[&str]) -> Vec<String> {
    v.iter().map(|s| s.to_string()).collect()
}

#[test]
fn add_moves_to_front_and_dedups() {
    let mut list = strings(&["a", "b", "c"]);
    add_recent_file(&mut list, "b".to_string());
    assert_eq!(list, strings(&["b", "a", "c"]));
}

#[test]
fn add_keeps_at_most_five() {
    let mut list = strings(&["a", "b", "c", "d", "e"]);
    add_recent_file(&mut list, "f".to_string());
    assert_eq!(list, strings(&["f", "a", "b", "c", "d"]));
}

#[test]
fn add_to_empty() {
    let mut list: Vec<String> = Vec::new();
    add_recent_file(&mut list, "x".to_string());
    assert_eq!(list, strings(&["x"]));
}

#[test]
fn remove_drops_all_occurrences() {
    let mut list = strings(&["a", "b", "a"]);
    remove_recent_file(&mut list, "a");
    assert_eq!(list, strings(&["b"]));
}

#[test]
fn load_keeps_existing_in_order() {
    let entries = vec![
        ("a".to_string(), true),
        ("b".to_string(), false),
        ("c".to_string(), true),
    ];
    assert_eq!(load_recent_files(entries), strings(&["a", "c"]));
}

#[test]
fn default_theme_is_dark() {
    assert_eq!(AppTheme::default(), AppTheme::Dark);
}

use id3_manager::{update, Action, Message, ParseError, State};

fn session() -> State {
    State::new(AppTheme::Dark, 10, strings(&["a", "b"]))
}

#[test]
fn selecting_a_file_opens_it_first_in_recent() {
    let mut s = session();
    let a = update(&mut s, Message::FileSelected(Some("b".to_string())));
    assert_eq!(a, Action::Parse("b".to_string()));
    assert_eq!(s.file_path.as_deref(), Some("b"));
    assert_eq!(s.recent_files, strings(&["b", "a"]));
    assert!(s.error.is_none());
}

#[test]
fn cancelled_dialog_changes_nothing() {
    let mut s = session();
    assert_eq!(update(&mut s, Message::FileSelected(None)), Action::Nothing);
    assert!(s.file_path.is_none());
    assert_eq!(s.recent_files, strings(&["a", "b"]));
}

#[test]
fn missing_recent_file_is_removed_with_error() {
    let mut s = session();
    let a = update(&mut s, Message::SelectRecentFile { path: "a".to_string(), exists: false });
    assert_eq!(a, Action::SaveRecentFiles);
    assert_eq!(s.error.as_deref(), Some("File no longer exists"));
    assert_eq!(s.recent_files, strings(&["b"]));
}

#[test]
fn parse_error_is_shown() {
    let mut s = session();
    update(&mut s, Message::MetadataParsed(Err(ParseError::NoId3Tag)));
    assert_eq!(s.error.as_deref(), Some("No ID3 tag found in file"));
    assert!(s.metadata.is_none());
}

#[test]
fn zoom_is_clamped() {
    let mut s = State::new(AppTheme::Light, 20, Vec::new());
    assert_eq!(update(&mut s, Message::ZoomIncrease), Action::SaveSettings);
    assert_eq!(s.zoom_tenths, 20);
    let mut s = State::new(AppTheme::Light, 5, Vec::new());
    update(&mut s, Message::ZoomDecrease);
    assert_eq!(s.zoom_tenths, 5);
    update(&mut s, Message::ZoomIncrease);
    assert_eq!(s.zoom_tenths, 6);
}

#[test]
fn theme_and_settings_toggle() {
    let mut s = session();
    assert_eq!(update(&mut s, Message::ThemeChanged(AppTheme::Light)), Action::SaveSettings);
    assert_eq!(s.theme, AppTheme::Light);
    update(&mut s, Message::ToggleSettings);
    assert!(s.settings_open);
    assert_eq!(update(&mut s, Message::OpenFileDialog), Action::OpenFileDialog);
}

#[test]
fn reopening_never_duplicates() {
    let mut list = strings(&["a", "b", "c", "d", "e"]);
    for p in ["c", "a", "c", "f", "e"] {
        add_recent_file(&mut list, p.to_string());
        assert_eq!(list[0], p);
        let mut sorted = list.clone();
        sorted.sort();
        sorted.dedup();
        assert_eq!(sorted.len(), list.len());
    }
}
