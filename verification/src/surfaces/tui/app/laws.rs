//! Properties of the browser's state machine that hold across actions.
use vstd::prelude::*;
use crate::domain::entry::{EntryItem, EntryKind};
use crate::domain::preview::PreviewModelView;
use crate::infra::cache::{entries_after_get, entries_after_put, keys_unique, position_of};
use crate::paths::path_key;
use crate::text::{contains_seq, starts_with, str_lowercase, trim_ws};
use crate::sorting::{key_lt, stably_ordered, SortKeyView};
use crate::surfaces::tui::app::action::Action;
use crate::surfaces::tui::app::effect::EffectView;
use crate::surfaces::tui::app::help::{begin_help_spec, end_help_spec, footer_spec};
use crate::surfaces::tui::app::reducer::{
    command_rel, dir_loaded_rel, load_dir_spec, reduce_rel, request_preview_spec, rotate_spec,
    set_sort_rel, toggle_numbers_spec, open_reader_spec, open_note_editor_spec,
};
use crate::surfaces::tui::app::state::{
    after_apply_filter, entry_key, entry_matches, entry_keys, filter_spec, matching_upto, move_next_spec,
    move_prev_spec, set_entries_post, sorted_for, state_wf, visible_position_of, AppStateView,
    InputMode, OverlayView, SortMode, position_from, shows_path,
};

verus! {

proof fn lemma_matching_bounded(entries: Seq<EntryItem>, q: Seq<char>, n: nat)
    requires
        n <= entries.len(),
    ensures
        forall|k: int| 0 <= k < matching_upto(entries, q, n).len() ==> matching_upto(entries, q, n)[k] < n,
    decreases n,
{
    if n > 0 {
        lemma_matching_bounded(entries, q, (n - 1) as nat);
        let before = matching_upto(entries, q, (n - 1) as nat);
        assert forall|k: int| 0 <= k < matching_upto(entries, q, n).len() implies matching_upto(
            entries,
            q,
            n,
        )[k] < n by {
            if k < before.len() {
                assert(matching_upto(entries, q, n)[k] == before[k]);
            }
        }
    }
}

/// Every visible position points at an entry.
pub proof fn lemma_filter_in_bounds(entries: Seq<EntryItem>, search: Seq<char>)
    ensures
        forall|k: int| 0 <= k < filter_spec(entries, search).len() ==> filter_spec(entries, search)[k] < entries.len(),
{
    if search.len() > 0 {
        lemma_matching_bounded(entries, crate::text::str_lowercase(search), entries.len());
    }
}

proof fn lemma_position_from_valid(s: AppStateView, path: Seq<char>, k: nat)
    ensures
        position_from(s, path, k) matches Some(p) ==> k <= p < s.filtered.len(),
    decreases s.filtered.len() - k,
{
    if k < s.filtered.len() && !shows_path(s, k as int, path) {
        lemma_position_from_valid(s, path, k + 1);
    }
}

/// Recomputing the filter leaves a well-formed state.
pub proof fn lemma_apply_filter_wf(s: AppStateView)
    requires
        keys_unique(s.cache),
        s.cache_capacity >= 1,
    ensures
        state_wf(after_apply_filter(s)),
{
    lemma_filter_in_bounds(s.entries, s.search_input);
}

/// Looking a key up or storing one keeps the keys of the cache distinct.
pub proof fn lemma_cache_keys_unique(
    entries: Seq<(Seq<char>, PreviewModelView)>,
    cap: nat,
    key: Seq<char>,
    value: PreviewModelView,
)
    requires
        keys_unique(entries),
        cap >= 1,
    ensures
        keys_unique(entries_after_get(entries, key)),
        keys_unique(entries_after_put(entries, cap, key, value)),
{
    match position_of(entries, key) {
        Some(i) => {
            let rest = entries.remove(i);
            assert forall|a: int, b: int| 0 <= a < b < rest.len() implies rest[a].0 != rest[b].0 by {
                let oa = if a < i { a } else { a + 1 };
                let ob = if b < i { b } else { b + 1 };
                assert(rest[a] == entries[oa] && rest[b] == entries[ob]);
            }
            let got = seq![entries[i]] + rest;
            assert forall|a: int, b: int| 0 <= a < b < got.len() implies got[a].0 != got[b].0 by {
                if a == 0 {
                    let ob = if b - 1 < i { b - 1 } else { b };
                    assert(got[b] == entries[ob]);
                } else {
                    assert(got[a] == rest[a - 1] && got[b] == rest[b - 1]);
                }
            }
            let put = seq![(key, value)] + rest;
            assert forall|a: int, b: int| 0 <= a < b < put.len() implies put[a].0 != put[b].0 by {
                if a == 0 {
                    let ob = if b - 1 < i { b - 1 } else { b };
                    assert(put[b] == entries[ob]);
                } else {
                    assert(put[a] == rest[a - 1] && put[b] == rest[b - 1]);
                }
            }
        },
        None => {
            let kept = if entries.len() >= cap { entries.drop_last() } else { entries };
            let put = seq![(key, value)] + kept;
            assert forall|a: int, b: int| 0 <= a < b < put.len() implies put[a].0 != put[b].0 by {
                assert(put[b] == kept[b - 1]);
                assert(kept[b - 1] == entries[b - 1]);
                if a == 0 {
                    assert(!(0 <= b - 1 < entries.len() && entries[b - 1].0 == key));
                } else {
                    assert(put[a] == kept[a - 1]);
                    assert(kept[a - 1] == entries[a - 1]);
                }
            }
        },
    }
}

/// After `key` is stored with `value`, the cache holds `value` for `key`, most recently used.
pub proof fn cache_read_after_write(
    entries: Seq<(Seq<char>, PreviewModelView)>,
    cap: nat,
    key: Seq<char>,
    value: PreviewModelView,
)
    requires
        keys_unique(entries),
        cap >= 1,
    ensures
        position_of(entries_after_put(entries, cap, key, value), key) == Some(0int),
        entries_after_put(entries, cap, key, value)[0] == (key, value),
{
    lemma_cache_keys_unique(entries, cap, key, value);
    let put = entries_after_put(entries, cap, key, value);
    assert(put[0].0 == key);
    let i = choose|i: int| 0 <= i < put.len() && put[i].0 == key;
    assert(i == 0) by {
        if i != 0 {
            assert(put[0].0 != put[i].0);
        }
    }
}

/// A full cache that receives a new key drops its least recently used entry.
pub proof fn cache_evicts_least_recent(
    entries: Seq<(Seq<char>, PreviewModelView)>,
    cap: nat,
    key: Seq<char>,
    value: PreviewModelView,
)
    requires
        entries.len() >= cap,
        entries.len() > 0,
        position_of(entries, key) is None,
    ensures
        entries_after_put(entries, cap, key, value) == seq![(key, value)] + entries.drop_last(),
{
}

/// Every action keeps the state well-formed.
pub proof fn reduce_keeps_state_wf(
    pre: AppStateView,
    action: Action,
    post: AppStateView,
    effects: Seq<EffectView>,
    quit: bool,
)
    requires
        state_wf(pre),
        reduce_rel(pre, action, post, effects, quit),
    ensures
        state_wf(post),
{
    match action {
        Action::DirLoaded { cwd, entries } => {
            let with_cwd = AppStateView { cwd: cwd@, ..pre };
            let loaded = choose|loaded: AppStateView|
                #![trigger set_entries_post(with_cwd, entries@, loaded)]
                set_entries_post(with_cwd, entries@, loaded) && (post, effects) == request_preview_spec(
                    AppStateView { status: "已加载 "@ + cwd@, ..loaded },
                );
            lemma_set_entries_wf(with_cwd, entries@, loaded);
            lemma_request_preview_wf(AppStateView { status: "已加载 "@ + cwd@, ..loaded });
        },
        Action::MoveDown => lemma_request_preview_wf(move_next_spec(pre)),
        Action::MoveUp => lemma_request_preview_wf(move_prev_spec(pre)),
        Action::SearchInput(edit) => {
            let s1 = AppStateView {
                search_input: crate::surfaces::tui::app::action::edited(pre.search_input, edit),
                ..pre
            };
            lemma_apply_filter_wf(s1);
            lemma_request_preview_wf(after_apply_filter(s1));
        },
        Action::SubmitSearch => {
            lemma_request_preview_wf(
                AppStateView {
                    input_mode: InputMode::Normal,
                    status: post.status,
                    ..pre
                },
            );
            assert(state_wf(post)) by {
                let s1 = AppStateView {
                    input_mode: InputMode::Normal,
                    status: if crate::text::trim_ws(pre.search_input).len() == 0 {
                        "搜索已清空"@
                    } else {
                        "已应用搜索: "@ + pre.search_input + "（"@ + crate::text::decimal(
                            pre.filtered.len(),
                        ) + " 项）"@
                    },
                    ..pre
                };
                lemma_request_preview_wf(s1);
            }
        },
        Action::ClearSearch => {
            let cleared = after_apply_filter(
                AppStateView { input_mode: InputMode::Normal, search_input: Seq::empty(), ..pre },
            );
            lemma_apply_filter_wf(
                AppStateView { input_mode: InputMode::Normal, search_input: Seq::empty(), ..pre },
            );
            lemma_request_preview_wf(cleared);
            lemma_request_preview_wf(AppStateView { status: "已清除过滤"@, ..cleared });
        },
        Action::SubmitCommand => {
            let s1 = AppStateView {
                command_input: Seq::empty(),
                input_mode: InputMode::Normal,
                ..pre
            };
            lemma_command_wf(s1, crate::text::trim_ws(pre.command_input), post, effects, quit);
        },
        Action::SetSort(mode) => lemma_set_sort_wf(pre, mode, post, effects),
        Action::RequestPreview => lemma_request_preview_wf(pre),
        Action::PreviewLoaded { path, preview } => {
            lemma_cache_keys_unique(pre.cache, pre.cache_capacity, path_key(path@), preview@);
        },
        _ => {},
    }
}

proof fn lemma_request_preview_wf(s: AppStateView)
    requires
        state_wf(s),
    ensures
        state_wf(request_preview_spec(s).0),
{
    lemma_cache_keys_unique(s.cache, 1, s.cwd, PreviewModelView::Loading { path: s.cwd });
    match crate::surfaces::tui::app::state::selected_entry_spec(s) {
        Some(e) => lemma_cache_keys_unique(s.cache, 1, path_key(e.path@), PreviewModelView::Loading { path: s.cwd }),
        None => {},
    }
}

proof fn lemma_set_entries_wf(pre: AppStateView, entries: Seq<EntryItem>, post: AppStateView)
    requires
        state_wf(pre),
        set_entries_post(pre, entries, post),
    ensures
        state_wf(post),
{
    let sorted = choose|sorted: Seq<EntryItem>|
        #![trigger sorted_for(entries, sorted, pre.sort_mode)]
        sorted_for(entries, sorted, pre.sort_mode) && {
            let filtered = after_apply_filter(AppStateView { entries: sorted, ..pre });
            match pre.initial_selection {
                Some(t) => match visible_position_of(filtered, t) {
                    Some(k) => post == AppStateView {
                        selected: Some(k as usize),
                        initial_selection: None,
                        ..filtered
                    },
                    None => post == filtered,
                },
                None => post == filtered,
            }
        };
    let filtered = after_apply_filter(AppStateView { entries: sorted, ..pre });
    lemma_apply_filter_wf(AppStateView { entries: sorted, ..pre });
    match pre.initial_selection {
        Some(t) => lemma_position_from_valid(filtered, t, 0),
        None => {},
    }
}

proof fn lemma_set_sort_wf(pre: AppStateView, mode: SortMode, post: AppStateView, effects: Seq<EffectView>)
    requires
        state_wf(pre),
        set_sort_rel(pre, mode, post, effects),
    ensures
        state_wf(post),
{
    let sorted = choose|sorted: Seq<EntryItem>|
        #![trigger sorted_for(pre.entries, sorted, mode)]
        sorted_for(pre.entries, sorted, mode) && (post, effects) == request_preview_spec(
            AppStateView {
                status: "排序: "@ + crate::surfaces::tui::app::state::sort_mode_label_spec(mode),
                ..after_apply_filter(AppStateView { sort_mode: mode, entries: sorted, ..pre })
            },
        );
    let s1 = AppStateView { sort_mode: mode, entries: sorted, ..pre };
    lemma_apply_filter_wf(s1);
    lemma_request_preview_wf(
        AppStateView {
            status: "排序: "@ + crate::surfaces::tui::app::state::sort_mode_label_spec(mode),
            ..after_apply_filter(s1)
        },
    );
}

proof fn lemma_command_wf(
    s: AppStateView,
    command: Seq<char>,
    post: AppStateView,
    effects: Seq<EffectView>,
    quit: bool,
)
    requires
        state_wf(s),
        command_rel(s, command, post, effects, quit),
    ensures
        state_wf(post),
{
    reveal_strlit("q");
    reveal_strlit("quit");
    reveal_strlit("help");
    reveal_strlit("refresh");
    reveal_strlit("toggle hidden");
    reveal_strlit("toggle numbers");
    reveal_strlit("bookmark list");
    reveal_strlit("bookmark add");
    reveal_strlit("bookmark jump ");
    reveal_strlit("note edit");
    reveal_strlit("note clear");
    reveal_strlit("sort name");
    reveal_strlit("sort mtime");
    if command == "sort name"@ {
        lemma_set_sort_wf(s, SortMode::Name, post, effects);
    } else if command == "sort mtime"@ {
        lemma_set_sort_wf(s, SortMode::Mtime, post, effects);
    }
}

/// Opening help and closing it again restores the overlay, the input mode and the focus.
pub proof fn help_overlay_round_trip(s: AppStateView)
    ensures
        end_help_spec(begin_help_spec(s)).overlay == s.overlay,
        end_help_spec(begin_help_spec(s)).input_mode == s.input_mode,
        end_help_spec(begin_help_spec(s)).focus == s.focus,
{
}

/// Toggling line numbers twice leaves them as they were.
pub proof fn toggle_numbers_twice(s: AppStateView)
    ensures
        toggle_numbers_spec(toggle_numbers_spec(s)).show_line_numbers == s.show_line_numbers,
{
}

/// Whatever the sort mode, directories come before everything else.
pub proof fn sorted_directories_first(entries: Seq<EntryItem>, sorted: Seq<EntryItem>, mode: SortMode)
    requires
        sorted_for(entries, sorted, mode),
    ensures
        forall|i: int, j: int|
            0 <= i < j < sorted.len() && sorted[j].kind == EntryKind::Directory ==> sorted[i].kind
                == EntryKind::Directory,
{
    let keys = entry_keys(entries, mode);
    let order = choose|order: Seq<usize>|
        #![trigger stably_ordered(entry_keys(entries, mode), order)]
        stably_ordered(entry_keys(entries, mode), order) && sorted.len() == entries.len() && forall|k: int|
            0 <= k < sorted.len() ==> sorted[k] == entries[order[k] as int];
    assert forall|i: int, j: int|
        0 <= i < j < sorted.len() && sorted[j].kind == EntryKind::Directory implies sorted[i].kind
            == EntryKind::Directory by {
        assert(sorted[i] == entries[order[i] as int]);
        assert(sorted[j] == entries[order[j] as int]);
        assert(order[i] < entries.len() && order[j] < entries.len());
        assert(key_lt(keys[order[i] as int], keys[order[j] as int]) || (keys[order[i] as int]
            == keys[order[j] as int] && order[i] < order[j]));
        assert(keys[order[i] as int] == entry_key(entries[order[i] as int], mode));
        assert(keys[order[j] as int] == entry_key(entries[order[j] as int], mode));
    }
}

/// The footer never shows more than six hints.
pub proof fn footer_is_short(s: AppStateView)
    ensures
        footer_spec(s).len() <= 6,
{
}

/// Moving down and then up returns to the same entry.
pub proof fn move_down_then_up(s: AppStateView)
    requires
        s.selected matches Some(i) && i < s.filtered.len(),
        s.filtered.len() <= usize::MAX,
    ensures
        move_prev_spec(move_next_spec(s)).selected == s.selected,
{
    let i = s.selected->0;
    let len = s.filtered.len();
    let n = move_next_spec(s);
    if i + 1 < len {
        assert(n.selected == Some((i + 1) as usize));
    } else {
        assert(n.selected == Some(0usize));
    }
    assert(n.filtered.len() == len);
}

/// Submitting a search keeps its text and returns to normal mode.
pub proof fn submit_search_keeps_filter(
    pre: AppStateView,
    post: AppStateView,
    effects: Seq<EffectView>,
    quit: bool,
)
    requires
        reduce_rel(pre, Action::SubmitSearch, post, effects, quit),
    ensures
        post.search_input == pre.search_input,
        post.input_mode == InputMode::Normal,
        post.filtered == pre.filtered,
        !quit,
{
}

/// Opening the search again keeps the current text and filter, ready to be edited.
pub proof fn reopened_search_keeps_text(
    pre: AppStateView,
    post: AppStateView,
    effects: Seq<EffectView>,
    quit: bool,
)
    requires
        reduce_rel(pre, Action::OpenSearch, post, effects, quit),
    ensures
        post.search_input == pre.search_input,
        post.filtered == pre.filtered,
        post.input_mode == InputMode::Search,
        effects.len() == 0,
        !quit,
{
}

/// Clearing the search empties it, returns to normal mode and shows every entry.
pub proof fn clear_search_shows_everything(
    pre: AppStateView,
    post: AppStateView,
    effects: Seq<EffectView>,
    quit: bool,
)
    requires
        reduce_rel(pre, Action::ClearSearch, post, effects, quit),
    ensures
        post.search_input.len() == 0,
        post.input_mode == InputMode::Normal,
        post.filtered == Seq::new(pre.entries.len(), |i: int| i as usize),
        !quit,
{
}

/// A preview that arrives for the path being shown is displayed, and remembered in the cache
/// under that path's key.
pub proof fn loaded_preview_is_shown(
    pre: AppStateView,
    path: String,
    preview: crate::domain::preview::PreviewModel,
    post: AppStateView,
    effects: Seq<EffectView>,
    quit: bool,
)
    requires
        state_wf(pre),
        pre.preview_target == Some(path@),
        reduce_rel(pre, Action::PreviewLoaded { path, preview }, post, effects, quit),
    ensures
        post.preview == preview@,
        post.cache[0] == (path_key(path@), preview@),
        position_of(post.cache, path_key(path@)) == Some(0int),
{
    cache_read_after_write(pre.cache, pre.cache_capacity, path_key(path@), preview@);
}

/// Only the quit action, or the `q` / `quit` command, ends the browser.
pub proof fn only_quit_quits(
    pre: AppStateView,
    action: Action,
    post: AppStateView,
    effects: Seq<EffectView>,
)
    requires
        reduce_rel(pre, action, post, effects, true),
    ensures
        action is Quit || (action is SubmitCommand && (crate::text::trim_ws(pre.command_input) == "q"@
            || crate::text::trim_ws(pre.command_input) == "quit"@)),
{
    match action {
        Action::SubmitCommand => {
            let c = crate::text::trim_ws(pre.command_input);
            let s1 = AppStateView { command_input: Seq::empty(), input_mode: InputMode::Normal, ..pre };
            assert(command_rel(s1, c, post, effects, true));
        },
        _ => {},
    }
}


/// Whether an entry's name, path, note or summary, lower-cased, contains `query`.
pub open spec fn shows_for_query(e: EntryItem, query: Seq<char>) -> bool {
    contains_seq(str_lowercase(e.name@), query)
        || contains_seq(str_lowercase(e.path@), query)
        || (match e.note { Some(n) => contains_seq(str_lowercase(n@), query), None => false })
        || (match e.auto_summary { Some(a) => contains_seq(str_lowercase(a@), query), None => false })
}

/// An entry matches a query whenever its note, lower-cased, contains it; likewise its
/// name, its path or its summary.
pub proof fn entry_found_by_any_field(e: EntryItem, query: Seq<char>)
    ensures
        e.note matches Some(n) && contains_seq(str_lowercase(n@), query) ==> entry_matches(e, query),
        e.auto_summary matches Some(a) && contains_seq(str_lowercase(a@), query) ==> entry_matches(e, query),
        contains_seq(str_lowercase(e.name@), query) ==> entry_matches(e, query),
        contains_seq(str_lowercase(e.path@), query) ==> entry_matches(e, query),
        entry_matches(e, query) ==> shows_for_query(e, query),
{
}

proof fn lemma_matching_upto(entries: Seq<EntryItem>, query: Seq<char>, n: nat)
    requires
        n <= entries.len(),
        entries.len() <= usize::MAX,
    ensures
        forall|k: int| 0 <= k < entries.len() ==> (#[trigger] matching_upto(entries, query, n).contains(k as usize)
            <==> (k < n && shows_for_query(entries[k], query))),
        forall|a: int, b: int| 0 <= a < b < matching_upto(entries, query, n).len()
            ==> #[trigger] matching_upto(entries, query, n)[a] < #[trigger] matching_upto(entries, query, n)[b],
        forall|a: int| 0 <= a < matching_upto(entries, query, n).len() ==> #[trigger] matching_upto(entries, query, n)[a] < n,
    decreases n,
{
    if n > 0 {
        lemma_matching_upto(entries, query, (n - 1) as nat);
        let before = matching_upto(entries, query, (n - 1) as nat);
        let now = matching_upto(entries, query, n);
        assert(entry_matches(entries[n - 1], query) == shows_for_query(entries[n - 1], query));
        if shows_for_query(entries[n - 1], query) {
            assert(now == before.push((n - 1) as usize));
            assert forall|k: int| 0 <= k < entries.len() implies (#[trigger] now.contains(k as usize)
                <==> (k < n && shows_for_query(entries[k], query))) by {
                if k == n - 1 {
                    assert(now[before.len() as int] == (n - 1) as usize);
                } else if now.contains(k as usize) {
                    let j = choose|j: int| 0 <= j < now.len() && now[j] == k as usize;
                    if j < before.len() {
                        assert(before[j] == now[j]);
                        assert(before.contains(k as usize));
                    }
                } else if k < n - 1 && before.contains(k as usize) {
                    let j = choose|j: int| 0 <= j < before.len() && before[j] == k as usize;
                    assert(now[j] == before[j]);
                }
            }
            assert forall|a: int, b: int| 0 <= a < b < now.len() implies #[trigger] now[a] < #[trigger] now[b] by {
                if b < before.len() {
                    assert(now[a] == before[a] && now[b] == before[b]);
                } else {
                    assert(now[a] == before[a]);
                    assert(now[b] == (n - 1) as usize);
                    assert(before[a] < n - 1);
                }
            }
            assert forall|a: int| 0 <= a < now.len() implies #[trigger] now[a] < n by {
                if a < before.len() {
                    assert(now[a] == before[a]);
                }
            }
        } else {
            assert(now == before);
        }
    }
}

/// Searching shows exactly the entries whose name, path, note or summary, lower-cased,
/// contains the lower-cased search text, each once and in listing order; an empty search
/// shows every entry.
pub proof fn search_shows_matching_entries(s: AppStateView)
    requires
        s.entries.len() <= usize::MAX,
    ensures
        s.search_input.len() > 0 ==> forall|k: int| 0 <= k < s.entries.len()
            ==> (#[trigger] after_apply_filter(s).filtered.contains(k as usize)
                <==> shows_for_query(s.entries[k], str_lowercase(s.search_input))),
        s.search_input.len() > 0 ==> forall|a: int, b: int| 0 <= a < b < after_apply_filter(s).filtered.len()
            ==> #[trigger] after_apply_filter(s).filtered[a] < #[trigger] after_apply_filter(s).filtered[b],
        forall|a: int| 0 <= a < after_apply_filter(s).filtered.len() ==> #[trigger] after_apply_filter(s).filtered[a] < s.entries.len(),
        s.search_input.len() == 0 ==> after_apply_filter(s).filtered == Seq::new(s.entries.len(), |k: int| k as usize),
{
    lemma_matching_upto(s.entries, str_lowercase(s.search_input), s.entries.len());
}


/// The directory a bookmark is taken of: the selected entry when it is a directory,
/// otherwise the directory being browsed.
pub open spec fn directory_in_view(s: AppStateView) -> Seq<char> {
    match crate::surfaces::tui::app::state::selected_entry_spec(s) {
        Some(e) => if e.kind == EntryKind::Directory { e.path@ } else { s.cwd },
        None => s.cwd,
    }
}

/// Toggling a bookmark asks for exactly one bookmark change, of the selected directory (or the
/// current one), named after its last component (`根目录` for the root), and changes nothing
/// else.
pub proof fn bookmark_toggle_targets_the_selected_directory(
    pre: AppStateView,
    post: AppStateView,
    effects: Seq<EffectView>,
    quit: bool,
)
    requires
        reduce_rel(pre, Action::ToggleBookmark, post, effects, quit),
    ensures
        post == pre,
        !quit,
        effects.len() == 1,
        effects[0] == (EffectView::ToggleBookmark {
            name: match crate::paths::path_file_name_spec(directory_in_view(pre)) {
                Some(n) => n,
                None => "根目录"@,
            },
            path: directory_in_view(pre),
        }),
        crate::surfaces::tui::app::state::selected_entry_spec(pre) matches Some(e)
            ==> (e.kind == EntryKind::Directory ==> effects[0]->ToggleBookmark_path == e.path@),
{
}

/// `:bookmark add [name]` saves a bookmark of the selected directory (or the current one),
/// under the given name, or under the directory's last component when none is given.
pub proof fn bookmark_add_targets_the_selected_directory(
    s: AppStateView,
    command: Seq<char>,
    post: AppStateView,
    effects: Seq<EffectView>,
    quit: bool,
)
    requires
        starts_with(command, "bookmark add"@),
        command_rel(s, command, post, effects, quit),
    ensures
        post == s,
        !quit,
        effects.len() == 1,
        effects[0] matches EffectView::SaveBookmark { name, path } && path == directory_in_view(s)
            && name == (if trim_ws(crate::surfaces::tui::app::reducer::strip_prefixes(command, "bookmark add"@)).len() == 0 {
                match crate::paths::path_file_name_spec(directory_in_view(s)) {
                    Some(n) => n,
                    None => "根目录"@,
                }
            } else {
                trim_ws(crate::surfaces::tui::app::reducer::strip_prefixes(command, "bookmark add"@))
            }),
{
    reveal_strlit("bookmark add");
    reveal_strlit("q");
    reveal_strlit("quit");
    reveal_strlit("help");
    reveal_strlit("refresh");
    reveal_strlit("toggle hidden");
    reveal_strlit("toggle numbers");
    reveal_strlit("bookmark list");
    assert(command.take(12) == "bookmark add"@);
    assert(command[0] == 'b') by {
        assert(command.take(12)[0] == command[0]);
    }
    assert(command[9] == 'a') by {
        assert(command.take(12)[9] == command[9]);
    }
    assert(command != "q"@ && command != "quit"@ && command != "help"@ && command != "refresh"@) by {
        assert("q"@[0] == 'q' && "quit"@[0] == 'q' && "help"@[0] == 'h' && "refresh"@[0] == 'r');
    }
    assert(command != "toggle hidden"@ && command != "toggle numbers"@) by {
        assert("toggle hidden"@[0] == 't' && "toggle numbers"@[0] == 't');
    }
    assert(command != "bookmark list"@) by {
        assert("bookmark list"@[9] == 'l');
    }
}


/// Opening the selection enters a selected directory (loading it, hidden files as before),
/// opens any other selected entry in the reader without effects, and does nothing without a
/// selection.
pub proof fn open_enters_directories_and_reads_files(
    pre: AppStateView,
    post: AppStateView,
    effects: Seq<EffectView>,
    quit: bool,
)
    requires
        reduce_rel(pre, Action::OpenSelected, post, effects, quit),
    ensures
        !quit,
        crate::surfaces::tui::app::state::selected_entry_spec(pre) matches Some(e) ==> (
            if e.kind == EntryKind::Directory {
                post.cwd == e.path@ && effects == seq![EffectView::LoadDir { cwd: e.path@, include_hidden: pre.include_hidden }]
                    && post.preview == (PreviewModelView::Loading { path: e.path@ })
            } else {
                post.overlay == OverlayView::Reader && effects.len() == 0 && post.cwd == pre.cwd
            }
        ),
        crate::surfaces::tui::app::state::selected_entry_spec(pre) is None ==> post == pre && effects.len() == 0,
{
}

/// Going to the parent loads the parent of the current directory; at the root nothing happens.
pub proof fn go_parent_loads_the_parent(
    pre: AppStateView,
    post: AppStateView,
    effects: Seq<EffectView>,
    quit: bool,
)
    requires
        reduce_rel(pre, Action::GoParent, post, effects, quit),
    ensures
        !quit,
        crate::paths::path_parent_spec(pre.cwd) matches Some(p) ==> post.cwd == p
            && effects == seq![EffectView::LoadDir { cwd: p, include_hidden: pre.include_hidden }],
        crate::paths::path_parent_spec(pre.cwd) is None ==> post == pre && effects.len() == 0,
{
}

/// Toggling hidden files flips the setting and reloads the same directory with it.
pub proof fn toggle_hidden_reloads_with_the_new_setting(
    pre: AppStateView,
    post: AppStateView,
    effects: Seq<EffectView>,
    quit: bool,
)
    requires
        reduce_rel(pre, Action::ToggleHidden, post, effects, quit),
    ensures
        !quit,
        post.include_hidden == !pre.include_hidden,
        post.cwd == pre.cwd,
        effects == seq![EffectView::LoadDir { cwd: pre.cwd, include_hidden: !pre.include_hidden }],
{
}

/// Previewing the selection targets that entry: a cached preview of its path is shown at once
/// and nothing is loaded; otherwise it shows as loading and exactly that entry is loaded.
pub proof fn preview_shows_the_selected_entry(s: AppStateView)
    ensures
        crate::surfaces::tui::app::state::selected_entry_spec(s) matches Some(e) ==> {
            let (post, effects) = request_preview_spec(s);
            &&& post.preview_target == Some(e.path@)
            &&& post.preview_scroll == 0 && post.preview_scroll_x == 0
            &&& match position_of(s.cache, path_key(e.path@)) {
                Some(i) => post.preview == s.cache[i].1 && effects.len() == 0 && s.cache[i].0 == path_key(e.path@),
                None => post.preview == (PreviewModelView::Loading { path: e.path@ }) && effects.len() == 1
                    && (effects[0] matches EffectView::LoadPreview { entry, .. } && entry == e),
            }
        },
{
    match crate::surfaces::tui::app::state::selected_entry_spec(s) {
        Some(e) => {
            match position_of(s.cache, path_key(e.path@)) {
                Some(i) => {
                    assert(exists|j: int| 0 <= j < s.cache.len() && s.cache[j].0 == path_key(e.path@));
                },
                None => {},
            }
        },
        None => {},
    }
}

} // verus!
