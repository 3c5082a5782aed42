use zoomosc_lite::text::{
    contains_alias, contains_chars, is_meeting_window, is_menu_window, is_share_action,
    is_share_button, same_text, searchable_text, starts_with, title_matches, tree_line,
};

#[test]
fn alias_found_anywhere_ignoring_case() {
    assert!(contains_alias("Content from 2nd Camera | Share", &["content from 2nd camera"]));
    assert!(contains_alias("CONTEÚDO DA SEGUNDA CÂMARA", &["conteúdo da segunda câmara"]));
    assert!(contains_alias("Mudar", &["mudar", "switch"]));
    assert!(!contains_alias("Screen", &["mudar", "switch"]));
}

#[test]
fn no_aliases_never_match() {
    assert!(!contains_alias("anything", &[]));
}

#[test]
fn empty_alias_matches_any_text() {
    assert!(contains_alias("", &[""]));
    assert!(contains_alias("abc", &[""]));
}

#[test]
fn alias_longer_than_text_does_not_match() {
    assert!(!contains_alias("mute", &["unmute"]));
    assert!(contains_alias("unmute", &["mute"]));
}

#[test]
fn title_must_match_whole() {
    assert!(title_matches("Start Video", &["start video"]));
    assert!(!title_matches("Start Video Now", &["start video"]));
    assert!(title_matches("", &[""]));
    assert!(title_matches("ÁUDIO", &["Áudio", "Audio"]));
    assert!(!title_matches("Audio", &[]));
}

#[test]
fn share_action_titles() {
    assert!(is_share_action("Share"));
    assert!(is_share_action("PARTILHAR"));
    assert!(is_share_action("Compartilhar"));
    assert!(is_share_action("Share - Screen 1"));
    assert!(is_share_action("partilhar - câmara"));
    assert!(!is_share_action("Share screen"));
    assert!(!is_share_action("Stop share"));
    assert!(!is_share_action(""));
}

#[test]
fn share_button_needs_button_role() {
    assert!(is_share_button("AXButton", "Share"));
    assert!(!is_share_button("AXStaticText", "Share"));
    assert!(!is_share_button("axbutton", "Share"));
    assert!(!is_share_button("AXButton", "Cancel"));
}

#[test]
fn window_titles() {
    assert!(is_menu_window("Menu window"));
    assert!(!is_menu_window("menu window"));
    assert!(!is_menu_window(""));
    assert!(is_meeting_window("Reunião Zoom"));
    assert!(is_meeting_window("Zoom Meeting"));
    assert!(!is_meeting_window("Zoom"));
}

#[test]
fn searchable_text_joins_present_labels() {
    assert_eq!(searchable_text(&vec![]), "");
    assert_eq!(searchable_text(&vec!["Mute".to_owned()]), "Mute");
    assert_eq!(
        searchable_text(&vec!["Mute".to_owned(), "Microphone".to_owned(), "".to_owned()]),
        "Mute | Microphone | "
    );
}

#[test]
fn tree_lines_are_indented_by_depth() {
    assert_eq!(tree_line(0, "AXWindow", "Zoom"), "AXWindow: Zoom");
    assert_eq!(tree_line(2, "AXButton", "Share"), "    AXButton: Share");
}

#[test]
fn text_helpers() {
    assert!(same_text("abc", "abc"));
    assert!(!same_text("abc", "abd"));
    assert!(!same_text("ab", "abc"));
    assert!(starts_with("share - x", "share -"));
    assert!(!starts_with("share", "share -"));
    assert!(starts_with("x", ""));
    let hay: Vec<char> = "banana".chars().collect();
    let needle: Vec<char> = "nan".chars().collect();
    let other: Vec<char> = "nab".chars().collect();
    assert!(contains_chars(&hay, &needle));
    assert!(!contains_chars(&hay, &other));
    assert!(contains_chars(&hay, &Vec::new()));
}
