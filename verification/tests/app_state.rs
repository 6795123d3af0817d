use lsz::domain::entry::{EntryItem, EntryKind};
use lsz::infra::cache::PreviewCache;
use lsz::domain::preview::PreviewModel;
use lsz::surfaces::tui::app::action::Action;
use lsz::surfaces::tui::app::reducer::reduce;
use lsz::surfaces::tui::app::state::{AppState, InputMode, OverlayState, SortMode};

#[test]
fn evicts_least_recently_used_entry() {
    let mut cache = PreviewCache::new(1);
    let first = "/tmp/first".to_string();
    let second = "/tmp/second".to_string();

    cache.put(first.clone(), PreviewModel::Loading { path: first.clone() });
    cache.put(second.clone(), PreviewModel::Loading { path: second.clone() });

    assert!(cache.get(&first).is_none());
    assert!(cache.get(&second).is_some());
}

#[test]
fn help_overlay_restores_previous_overlay() {
    let mut state = AppState::new("/tmp".to_string(), None);
    state.overlay = OverlayState::NoteEditor {
        path: "/tmp/demo.txt".to_string(),
        input: "备注".to_string(),
        original: Some("备注".to_string()),
    };

    reduce(&mut state, Action::OpenHelp);
    assert!(matches!(state.overlay, OverlayState::Help { .. }));

    reduce(&mut state, Action::CloseOverlay);
    assert!(matches!(state.overlay, OverlayState::NoteEditor { .. }));
}

#[test]
fn toggle_line_numbers_updates_status() {
    let mut state = AppState::new("/tmp".to_string(), None);
    reduce(&mut state, Action::ToggleLineNumbers);
    assert!(!state.show_line_numbers);
    assert!(state.status.contains("已隐藏"));
}

#[test]
fn horizontal_preview_scroll_updates_state() {
    let mut state = AppState::new("/tmp".to_string(), None);
    reduce(&mut state, Action::ScrollPreviewHorizontal(6));
    assert_eq!(state.preview_scroll_x, 6);

    reduce(&mut state, Action::ScrollPreviewHorizontal(-10));
    assert_eq!(state.preview_scroll_x, 0);
}

#[test]
fn submit_search_keeps_filter_and_returns_to_normal_mode() {
    let mut state = AppState::new("/tmp".to_string(), None);
    state.input_mode = InputMode::Search;
    state.search_input = "src".to_string();
    state.apply_filter();

    reduce(&mut state, Action::SubmitSearch);

    assert!(matches!(state.input_mode, InputMode::Normal));
    assert_eq!(state.search_input, "src");
    assert!(state.status.contains("已应用搜索"));
}

#[test]
fn clear_search_clears_filter_and_returns_to_normal_mode() {
    let mut state = AppState::new("/tmp".to_string(), None);
    state.input_mode = InputMode::Search;
    state.search_input = "src".to_string();
    state.apply_filter();

    reduce(&mut state, Action::ClearSearch);

    assert!(matches!(state.input_mode, InputMode::Normal));
    assert!(state.search_input.is_empty());
    assert!(state.status.contains("已清除过滤"));
}

fn entry(name: &str, kind: EntryKind, modified_after_epoch: u64) -> EntryItem {
    EntryItem {
        path: format!("/tmp/{name}"),
        name: name.to_string(),
        kind,
        is_hidden: false,
        is_symlink: false,
        size: Some(1),
        mtime: Some(modified_after_epoch * 1_000_000_000),
        note: None,
        auto_summary: None,
    }
}

#[test]
fn sort_mode_mtime_keeps_directories_first() {
    let mut state = AppState::new("/tmp".to_string(), None);
    state.set_entries(vec![
        entry("b.txt", EntryKind::Text, 1),
        entry("a.txt", EntryKind::Text, 10),
        entry("dir", EntryKind::Directory, 2),
    ]);

    state.set_sort_mode(SortMode::Mtime);

    let visible = state
        .filtered
        .iter()
        .filter_map(|idx| state.entries.get(*idx))
        .map(|entry| entry.name.clone())
        .collect::<Vec<_>>();
    assert_eq!(visible, vec!["dir", "a.txt", "b.txt"]);
}

#[test]
fn footer_only_shows_limited_primary_bindings() {
    let state = AppState::new("/tmp".to_string(), None);
    assert!(state.footer_bindings().len() <= 6);
}

#[test]
fn help_filter_searches_all_categories_and_supports_pinyin() {
    let mut state = AppState::new("/tmp".to_string(), None);
    state.begin_help_overlay();
    if let OverlayState::Help { filter, .. } = &mut state.overlay {
        *filter = "sqlb".to_string();
    }

    let bindings = state.help_bindings();
    assert!(bindings.iter().any(|binding| binding.label == "书签列表"));
}

#[test]
fn name_sort_orders_directories_then_lowercase_names() {
    let mut state = AppState::new("/tmp".to_string(), None);
    state.set_entries(vec![
        entry("b.txt", EntryKind::Text, 1),
        entry("A.txt", EntryKind::Text, 10),
        entry("zdir", EntryKind::Directory, 2),
    ]);
    let visible = state
        .filtered
        .iter()
        .map(|idx| state.entries[*idx].name.clone())
        .collect::<Vec<_>>();
    assert_eq!(visible, vec!["zdir", "A.txt", "b.txt"]);
}

#[test]
fn reopening_search_keeps_the_keyword() {
    let mut state = AppState::new("/tmp".to_string(), None);
    state.search_input = "src".to_string();
    state.apply_filter();
    let filtered = state.filtered.clone();

    let result = reduce(&mut state, Action::OpenSearch);

    assert!(matches!(state.input_mode, InputMode::Search));
    assert_eq!(state.search_input, "src");
    assert_eq!(state.filtered, filtered);
    assert_eq!(state.status, "搜索模式：可继续修改当前过滤");
    assert!(result.effects.is_empty());
    assert!(!result.should_quit);
}

#[test]
fn cache_compares_paths_by_components() {
    let mut cache = PreviewCache::new(4);
    cache.put("/tmp/a/".to_string(), PreviewModel::Loading { path: "/tmp/a/".to_string() });
    assert!(cache.get(&"/tmp/a".to_string()).is_some());
    assert!(cache.get(&"/tmp//a".to_string()).is_some());
    assert!(cache.get(&"/tmp/./a".to_string()).is_some());
    assert!(cache.get(&"tmp/a".to_string()).is_none());
    assert!(cache.get(&"/tmp/a/b".to_string()).is_none());
}
