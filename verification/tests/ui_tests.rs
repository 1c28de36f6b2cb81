use cosmic_hex::ui::{ContextPage, MenuAction, State};

#[test]
fn context_page_titles() {
    assert_eq!(ContextPage::About.title(), "");
    assert_eq!(ContextPage::Settings.title(), "Settings");
    assert_eq!(ContextPage::default(), ContextPage::About);
}

#[test]
fn widget_state_starts_unfocused() {
    let mut state = State::new();
    assert!(!state.is_focused());
    state.focus();
    assert!(state.is_focused());
    state.unfocus();
    assert!(!state.is_focused());
}

#[test]
fn menu_actions_are_plain_values() {
    let open = MenuAction::Open;
    assert_eq!(open, MenuAction::Open);
    assert_ne!(open, MenuAction::Quit);
    assert_eq!(MenuAction::OpenRecentFile(3), MenuAction::OpenRecentFile(3));
    assert_ne!(MenuAction::OpenRecentFile(3), MenuAction::OpenRecentFile(4));
}
