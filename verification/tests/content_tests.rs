use brainwires_cli::help_content::{
    get_commands_help, get_navigation_help, search_help, HelpCategory, HelpEntry,
};
use brainwires_cli::hotkey_content::{
    hotkey_count, search_hotkeys, BrainwiresHotkeyProvider, HotkeyCategory, HotkeyContext,
    HotkeyEntry, HotkeyEntryData,
};

#[test]
fn help_content_test_all_categories() {
    let all = HelpCategory::all();
    assert_eq!(all.len(), 8);
    assert_eq!(all[0], HelpCategory::Navigation);
}

#[test]
fn help_content_test_category_navigation() {
    let cat = HelpCategory::Navigation;
    assert_eq!(cat.next(), HelpCategory::TextEditing);
    assert_eq!(cat.prev(), HelpCategory::TipsTricks);
}

#[test]
fn help_content_test_category_entries() {
    let entries = HelpCategory::Navigation.entries();
    assert!(!entries.is_empty());
    assert!(entries.iter().any(|e| e.shortcut.contains("Ctrl+L")));
}

#[test]
fn test_search_help() {
    let results = search_help("ctrl");
    assert!(!results.is_empty());
    let results = search_help("session");
    assert!(!results.is_empty());
    let results = search_help("xyznonexistent");
    assert!(results.is_empty());
}

#[test]
fn help_content_test_display_names() {
    assert_eq!(HelpCategory::Navigation.display_name(), "Navigation");
    assert_eq!(HelpCategory::GitIntegration.display_name(), "Git Integration");
}

#[test]
fn help_search_ignores_case_and_empty_query() {
    assert!(search_help("").is_empty());
    let upper = search_help("CTRL+L");
    assert_eq!(upper.len(), 1);
    assert_eq!(upper[0].0, HelpCategory::Navigation);
    assert_eq!(upper[0].1.description, "Open session picker");
    let by_description = search_help("FIND & REPLACE");
    assert_eq!(by_description.len(), 1);
    assert_eq!(by_description[0].1.shortcut, "Ctrl+H");
}

#[test]
fn help_search_keeps_category_order() {
    let results = search_help("escape");
    let cats: Vec<HelpCategory> = results.iter().map(|(c, _)| *c).collect();
    assert_eq!(
        cats,
        vec![
            HelpCategory::Dialogs,
            HelpCategory::FileExplorer,
            HelpCategory::GitIntegration,
            HelpCategory::TipsTricks
        ]
    );
}

#[test]
fn help_categories_cycle_both_ways() {
    for c in HelpCategory::all() {
        assert_eq!(c.next().prev(), c);
        assert_eq!(c.prev().next(), c);
    }
    let mut c = HelpCategory::Navigation;
    for _ in 0..8 {
        c = c.next();
    }
    assert_eq!(c, HelpCategory::Navigation);
    assert_eq!(HelpCategory::default(), HelpCategory::Navigation);
}

#[test]
fn help_lists_and_icons() {
    assert_eq!(get_navigation_help().len(), 10);
    assert_eq!(get_commands_help()[0].shortcut, "/help");
    assert_eq!(HelpCategory::GitIntegration.icon(), "🔀");
    let e = HelpEntry::new("F2", "Rename");
    assert_eq!(e.shortcut, "F2");
    assert_eq!(e.description, "Rename");
}

#[test]
fn hotkey_content_test_all_categories() {
    let all = HotkeyCategory::all();
    assert_eq!(all.len(), 11);
    assert_eq!(all[0], HotkeyCategory::GlobalActions);
}

#[test]
fn hotkey_content_test_category_navigation() {
    let cat = HotkeyCategory::GlobalActions;
    assert_eq!(cat.next(), HotkeyCategory::Navigation);
    assert_eq!(cat.prev(), HotkeyCategory::PlanMode);
}

#[test]
fn hotkey_content_test_category_entries() {
    let entries = HotkeyCategory::GlobalActions.entries();
    assert!(!entries.is_empty());
    assert!(entries.iter().any(|e| e.key_combination.contains("Ctrl+C")));
}

#[test]
fn test_search_hotkeys() {
    let results = search_hotkeys("ctrl");
    assert!(!results.is_empty());
    let results = search_hotkeys("quit");
    assert!(!results.is_empty());
    let results = search_hotkeys("xyznonexistent");
    assert!(results.is_empty());
}

#[test]
fn hotkey_content_test_display_names() {
    assert_eq!(HotkeyCategory::GlobalActions.display_name(), "Global Actions");
    assert_eq!(HotkeyCategory::GitScm.display_name(), "Git SCM");
}

#[test]
fn test_hotkey_count() {
    let count = hotkey_count();
    assert!(count > 50, "Expected more than 50 hotkeys, got {}", count);
}

#[test]
fn test_context_string() {
    let entry = HotkeyEntry::new("Ctrl+C", "Quit", vec![HotkeyContext::Global]);
    assert_eq!(entry.context_string(), "Global");
    let entry = HotkeyEntry::new(
        "Tab",
        "Navigate",
        vec![HotkeyContext::FindDialog, HotkeyContext::HelpDialog],
    );
    assert!(entry.context_string().contains("Find Dialog"));
    assert!(entry.context_string().contains("Help Dialog"));
}

#[test]
fn test_fixed_hotkey() {
    let entry = HotkeyEntry::fixed("Ctrl+C", "Quit", vec![HotkeyContext::Global]);
    assert!(!entry.is_customizable);
    let entry = HotkeyEntry::new("F1", "Help", vec![HotkeyContext::Global]);
    assert!(entry.is_customizable);
}

#[test]
fn hotkey_count_is_exact() {
    assert_eq!(hotkey_count(), 108);
    let sum: usize = HotkeyCategory::all().iter().map(|c| c.entries().len()).sum();
    assert_eq!(sum, 108);
}

#[test]
fn hotkey_context_strings() {
    let none = HotkeyEntry::new("x", "y", vec![]);
    assert_eq!(none.context_string(), "None");
    let two = HotkeyEntry::new(
        "Tab",
        "Navigate",
        vec![HotkeyContext::FindDialog, HotkeyContext::HelpDialog],
    );
    assert_eq!(two.context_string(), "Find Dialog, Help Dialog");
    let global_and_more = HotkeyEntry::new("x", "y", vec![HotkeyContext::Global, HotkeyContext::GitScm]);
    assert_eq!(global_and_more.context_string(), "Global, Git SCM");
    assert_eq!(HotkeyContext::SessionPicker.label(), "Session Picker");
}

#[test]
fn hotkey_search_matches_context_names() {
    let results = search_hotkeys("NANO EDITOR");
    assert_eq!(results.len(), 12);
    assert!(results.iter().all(|(c, _)| *c == HotkeyCategory::NanoEditor));
    let plan = search_hotkeys("plan mode");
    assert!(plan.iter().any(|(c, e)| *c == HotkeyCategory::PlanMode && e.key_combination == "Escape"));
    assert!(search_hotkeys("").is_empty());
}

#[test]
fn hotkey_provider_shows_entries() {
    let p = BrainwiresHotkeyProvider;
    let data = p.entries_for_category(HotkeyCategory::GlobalActions);
    assert_eq!(data.len(), 7);
    assert_eq!(data[0].key_combination, "Ctrl+C");
    assert!(data[0].is_global);
    assert!(!data[0].is_customizable);
    assert_eq!(data[4].context, "Normal");
    assert!(!data[4].is_global);
    let found = p.search("quit");
    assert_eq!(found.len(), 1);
    assert_eq!(found[0].0, HotkeyCategory::GlobalActions);
    assert_eq!(found[0].1.action, "Quit application");
    let d = HotkeyEntryData::from_entry(HotkeyEntry::new("Tab", "x", vec![HotkeyContext::FindDialog]));
    assert_eq!(d.context, "Find Dialog");
}

#[test]
fn hotkey_categories_cycle_both_ways() {
    for c in HotkeyCategory::all() {
        assert_eq!(c.next().prev(), c);
        assert_eq!(c.prev().next(), c);
    }
    assert_eq!(HotkeyCategory::default(), HotkeyCategory::GlobalActions);
    assert_eq!(HotkeyCategory::PlanMode.icon(), "📐");
}

#[test]
fn only_quit_is_fixed() {
    let fixed: Vec<_> = HotkeyCategory::all()
        .into_iter()
        .flat_map(|c| c.entries())
        .filter(|e| !e.is_customizable)
        .collect();
    assert_eq!(fixed.len(), 1);
    assert_eq!(fixed[0].key_combination, "Ctrl+C");
    assert_eq!(fixed[0].action, "Quit application");
    assert!(HotkeyCategory::all().into_iter().all(|c| !c.entries().is_empty()));
}
