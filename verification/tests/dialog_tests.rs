use brainwires_cli::help_content::HelpCategory;
use brainwires_cli::help_dialog::{HelpDialogState, HelpFocus};
use brainwires_cli::suspend_dialog::{ClickRegion, SuspendAction, SuspendDialogState, SuspendFocus};
use brainwires_cli::widgets::{CheckBoxState, Rect};

#[test]
fn test_suspend_focus_navigation() {
    let mut focus = SuspendFocus::BackgroundButton;
    focus = focus.next();
    assert_eq!(focus, SuspendFocus::SuspendButton);
    focus = focus.next();
    assert_eq!(focus, SuspendFocus::ExitWhenDoneCheckbox);
    focus = focus.next();
    assert_eq!(focus, SuspendFocus::BackgroundButton);
    focus = focus.prev();
    assert_eq!(focus, SuspendFocus::ExitWhenDoneCheckbox);
    focus = focus.prev();
    assert_eq!(focus, SuspendFocus::SuspendButton);
    focus = focus.prev();
    assert_eq!(focus, SuspendFocus::BackgroundButton);
}

#[test]
fn test_dialog_state_new() {
    let state = SuspendDialogState::new();
    assert_eq!(state.focus, SuspendFocus::BackgroundButton);
    assert!(state.click_regions.is_empty());
}

#[test]
fn test_selected_action() {
    let mut state = SuspendDialogState::new();
    assert_eq!(state.selected_action(), Some(SuspendAction::Background));
    state.focus_next();
    assert_eq!(state.selected_action(), Some(SuspendAction::Suspend));
}

#[test]
fn test_click_region() {
    let region = ClickRegion { area: Rect::new(10, 5, 20, 3), element: SuspendFocus::BackgroundButton };
    assert!(region.contains(10, 5));
    assert!(region.contains(29, 7));
    assert!(region.contains(15, 6));
    assert!(!region.contains(9, 5));
    assert!(!region.contains(30, 5));
    assert!(!region.contains(10, 4));
    assert!(!region.contains(10, 8));
}

#[test]
fn test_handle_click() {
    let mut state = SuspendDialogState::new();
    state.add_click_region(Rect::new(10, 5, 10, 1), SuspendFocus::BackgroundButton);
    state.add_click_region(Rect::new(25, 5, 10, 1), SuspendFocus::SuspendButton);
    assert_eq!(state.handle_click(15, 5), Some(SuspendFocus::BackgroundButton));
    assert_eq!(state.handle_click(30, 5), Some(SuspendFocus::SuspendButton));
    assert_eq!(state.handle_click(22, 5), None);
}

#[test]
fn suspend_checkbox_follows_focus() {
    let mut state = SuspendDialogState::new();
    assert!(!state.exit_when_done.focused);
    state.focus_prev();
    assert_eq!(state.focus, SuspendFocus::ExitWhenDoneCheckbox);
    assert!(state.exit_when_done.focused);
    assert_eq!(state.selected_action(), None);
    state.set_focus(SuspendFocus::SuspendButton);
    assert!(!state.exit_when_done.focused);
    assert!(!state.exit_when_done());
    state.toggle_exit_when_done();
    assert!(state.exit_when_done());
    state.clear_click_regions();
    assert!(state.click_regions.is_empty());
}

#[test]
fn disabled_checkbox_does_not_toggle() {
    let mut c = CheckBoxState::new(false);
    c.enabled = false;
    c.toggle();
    assert!(!c.checked);
    let mut d = CheckBoxState::new(true);
    d.toggle();
    assert!(!d.checked);
}

#[test]
fn rect_new_stays_in_range() {
    let r = Rect::new(65530, 65000, 100, 100);
    assert_eq!(r.width, 5);
    assert_eq!(r.height, 100);
    assert!(r.contains(65534, 65000));
    assert!(!r.contains(65535, 65000));
}

#[test]
fn test_new_state() {
    let state = HelpDialogState::new();
    assert!(state.search_query.is_empty());
    assert_eq!(state.focus, HelpFocus::CategoryList);
    assert_eq!(state.selected_category, HelpCategory::Navigation);
}

#[test]
fn help_dialog_test_category_navigation() {
    let mut state = HelpDialogState::new();
    assert_eq!(state.selected_category, HelpCategory::Navigation);
    state.next_category();
    assert_eq!(state.selected_category, HelpCategory::TextEditing);
    state.prev_category();
    assert_eq!(state.selected_category, HelpCategory::Navigation);
}

#[test]
fn test_focus_cycling() {
    let mut state = HelpDialogState::new();
    state.focus = HelpFocus::CategoryList;
    state.focus_next();
    assert_eq!(state.focus, HelpFocus::ContentArea);
    state.focus_next();
    assert_eq!(state.focus, HelpFocus::SearchInput);
    state.focus_next();
    assert_eq!(state.focus, HelpFocus::CategoryList);
}

#[test]
fn test_search_input() {
    let mut state = HelpDialogState::new();
    state.insert_char('c');
    state.insert_char('t');
    state.insert_char('r');
    state.insert_char('l');
    assert_eq!(state.search_query, "ctrl");
    assert_eq!(state.search_cursor_pos, 4);
    state.delete_char_backward();
    assert_eq!(state.search_query, "ctr");
    assert_eq!(state.search_cursor_pos, 3);
}

#[test]
fn test_cursor_movement() {
    let mut state = HelpDialogState::new();
    state.search_query = "test".to_string();
    state.search_cursor_pos = 4;
    state.move_cursor_left();
    assert_eq!(state.search_cursor_pos, 3);
    state.move_cursor_home();
    assert_eq!(state.search_cursor_pos, 0);
    state.move_cursor_end();
    assert_eq!(state.search_cursor_pos, 4);
}

#[test]
fn test_is_searching() {
    let mut state = HelpDialogState::new();
    assert!(!state.is_searching());
    state.insert_char('a');
    assert!(state.is_searching());
    state.clear_search();
    assert!(!state.is_searching());
}

#[test]
fn help_dialog_edits_in_the_middle() {
    let mut state = HelpDialogState::new();
    state.search_query = "héllo".to_string();
    state.search_cursor_pos = 2;
    state.insert_char('X');
    assert_eq!(state.search_query, "héXllo");
    assert_eq!(state.search_cursor_pos, 3);
    assert_eq!(state.text_before_cursor(), "héX");
    assert_eq!(state.text_after_cursor(), "llo");
    assert!(state.delete_char_forward());
    assert_eq!(state.search_query, "héXlo");
    state.move_cursor_end();
    assert!(!state.delete_char_forward());
    state.move_cursor_right();
    assert_eq!(state.search_cursor_pos, 5);
    state.search_cursor_pos = 9;
    assert!(!state.delete_char_backward());
    assert_eq!(state.search_cursor_pos, 8);
    assert_eq!(state.search_query, "héXlo");
    state.insert_char('!');
    assert_eq!(state.search_query, "héXlo!");
}

#[test]
fn help_dialog_scrolls_within_entries() {
    let mut state = HelpDialogState::new();
    state.scroll_content_down(100);
    assert_eq!(state.content_scroll, 9);
    state.scroll_content_up(4);
    assert_eq!(state.content_scroll, 5);
    state.scroll_content_up(10);
    assert_eq!(state.content_scroll, 0);
    state.search_query = "ctrl+l".to_string();
    assert_eq!(state.get_current_entries().len(), 1);
    state.scroll_content_down(3);
    assert_eq!(state.content_scroll, 0);
}

#[test]
fn help_dialog_click_selects_category() {
    let mut state = HelpDialogState::new();
    state.focus = HelpFocus::SearchInput;
    state.add_click_region(Rect::new(0, 3, 20, 1), HelpCategory::Dialogs);
    assert!(!state.handle_click(0, 4));
    assert_eq!(state.focus, HelpFocus::SearchInput);
    assert!(state.handle_click(5, 3));
    assert_eq!(state.selected_category, HelpCategory::Dialogs);
    assert_eq!(state.focus, HelpFocus::CategoryList);
    state.clear_click_regions();
    assert!(!state.handle_click(5, 3));
}

#[test]
fn help_focus_cycles_back() {
    for f in [HelpFocus::SearchInput, HelpFocus::CategoryList, HelpFocus::ContentArea] {
        assert_eq!(f.next().prev(), f);
        assert_eq!(f.prev().next(), f);
    }
    assert_eq!(HelpFocus::default(), HelpFocus::CategoryList);
}
