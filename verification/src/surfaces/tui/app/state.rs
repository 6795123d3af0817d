//! The state of the interactive browser.
use vstd::prelude::*;
use crate::config::keymap::{default_key_bindings, default_bindings_spec};
use crate::domain::bookmarks::{BookmarkRecord, duplicate_bookmarks};
use crate::domain::entry::{EntryItem, EntryKind};
use crate::domain::keymap::{HelpCategory, HelpContext, KeyBinding, KeyBindingView};
use crate::domain::preview::{PreviewModel, PreviewModelView};
use crate::infra::cache::{PreviewCache, keys_unique};
use crate::sorting::{SortKey, SortKeyView, stable_order, stably_ordered};
use crate::text::{
    chars_of, contains_seq, str_contains, str_lowercase, to_lowercase, views, Duplicate,
};

verus! {

/// The pane that has the keyboard focus.
#[derive(Debug, Clone, Copy, PartialEq, Eq, Structural)]
pub enum FocusPane {
    Explorer,
    Preview,
    Inspector,
}

/// Where typed characters go.
#[derive(Debug, Clone, Copy, PartialEq, Eq, Structural)]
pub enum InputMode {
    Normal,
    Search,
    Command,
}

/// How directory entries are ordered (directories always come first).
#[derive(Debug, Clone, Copy, PartialEq, Eq, Structural)]
pub enum SortMode {
    Name,
    Mtime,
}

/// What a confirmation dialog confirms.
#[derive(Debug, Clone)]
pub enum ConfirmIntent {
    DeleteBookmark { name: String },
    ClearNote { path: String },
}

pub enum ConfirmIntentView {
    DeleteBookmark { name: Seq<char> },
    ClearNote { path: Seq<char> },
}

impl View for ConfirmIntent {
    type V = ConfirmIntentView;

    open spec fn view(&self) -> ConfirmIntentView {
        match self {
            ConfirmIntent::DeleteBookmark { name } => ConfirmIntentView::DeleteBookmark { name: name@ },
            ConfirmIntent::ClearNote { path } => ConfirmIntentView::ClearNote { path: path@ },
        }
    }
}

impl ConfirmIntent {
    pub fn duplicate(&self) -> (r: ConfirmIntent)
        ensures
            r == *self,
    {
        match self {
            ConfirmIntent::DeleteBookmark { name } => ConfirmIntent::DeleteBookmark { name: name.clone() },
            ConfirmIntent::ClearNote { path } => ConfirmIntent::ClearNote { path: path.clone() },
        }
    }
}

/// The overlay drawn above the panes, if any.
pub enum OverlayState {
    Closed,
    Help { filter: String, scroll: u16, context: HelpContext, category: HelpCategory },
    NoteEditor { path: String, input: String, original: Option<String> },
    Confirm {
        title: String,
        message: String,
        intent: ConfirmIntent,
        return_to: Option<Box<OverlayState>>,
    },
    BookmarkPicker { items: Vec<BookmarkRecord>, selected: usize },
    Reader,
}

pub enum OverlayView {
    Closed,
    Help { filter: Seq<char>, scroll: u16, context: HelpContext, category: HelpCategory },
    NoteEditor { path: Seq<char>, input: Seq<char>, original: Option<Seq<char>> },
    Confirm {
        title: Seq<char>,
        message: Seq<char>,
        intent: ConfirmIntentView,
        return_to: Option<Box<OverlayView>>,
    },
    BookmarkPicker { items: Seq<BookmarkRecord>, selected: usize },
    Reader,
}

pub open spec fn overlay_view(o: OverlayState) -> OverlayView
    decreases o,
{
    match o {
        OverlayState::Closed => OverlayView::Closed,
        OverlayState::Help { filter, scroll, context, category } => OverlayView::Help {
            filter: filter@,
            scroll,
            context,
            category,
        },
        OverlayState::NoteEditor { path, input, original } => OverlayView::NoteEditor {
            path: path@,
            input: input@,
            original: crate::domain::preview::opt_view(original),
        },
        OverlayState::Confirm { title, message, intent, return_to } => OverlayView::Confirm {
            title: title@,
            message: message@,
            intent: intent@,
            return_to: match return_to {
                Some(b) => Some(Box::new(overlay_view(*b))),
                None => None,
            },
        },
        OverlayState::BookmarkPicker { items, selected } => OverlayView::BookmarkPicker {
            items: items@,
            selected,
        },
        OverlayState::Reader => OverlayView::Reader,
    }
}

impl View for OverlayState {
    type V = OverlayView;

    open spec fn view(&self) -> OverlayView {
        overlay_view(*self)
    }
}

impl OverlayState {
    /// A copy with the same view.
    pub fn duplicate(&self) -> (r: OverlayState)
        ensures
            r@ == self@,
        decreases self,
    {
        match self {
            OverlayState::Closed => OverlayState::Closed,
            OverlayState::Help { filter, scroll, context, category } => OverlayState::Help {
                filter: filter.clone(),
                scroll: *scroll,
                context: *context,
                category: *category,
            },
            OverlayState::NoteEditor { path, input, original } => OverlayState::NoteEditor {
                path: path.clone(),
                input: input.clone(),
                original: crate::domain::entry::duplicate_opt_string(original),
            },
            OverlayState::Confirm { title, message, intent, return_to } => {
                let back = match return_to {
                    Some(b) => Some(Box::new((**b).duplicate())),
                    None => None,
                };
                OverlayState::Confirm {
                    title: title.clone(),
                    message: message.clone(),
                    intent: intent.duplicate(),
                    return_to: back,
                }
            },
            OverlayState::BookmarkPicker { items, selected } => OverlayState::BookmarkPicker {
                items: duplicate_bookmarks(items),
                selected: *selected,
            },
            OverlayState::Reader => OverlayState::Reader,
        }
    }
}

/// Everything the browser shows and remembers.
pub struct AppState {
    pub cwd: String,
    pub include_hidden: bool,
    pub sort_mode: SortMode,
    pub focus: FocusPane,
    pub input_mode: InputMode,
    pub overlay: OverlayState,
    pub entries: Vec<EntryItem>,
    pub filtered: Vec<usize>,
    pub selected: Option<usize>,
    pub search_input: String,
    pub command_input: String,
    pub preview: PreviewModel,
    pub preview_target: Option<String>,
    pub preview_scroll: u16,
    pub preview_scroll_x: u16,
    pub status: String,
    pub key_bindings: Vec<KeyBinding>,
    pub preview_cache: PreviewCache,
    pub initial_selection: Option<String>,
    pub show_line_numbers: bool,
    pub help_resume_overlay: Option<Box<OverlayState>>,
    pub help_resume_input_mode: Option<InputMode>,
    pub help_resume_focus: Option<FocusPane>,
}

pub struct AppStateView {
    pub cwd: Seq<char>,
    pub include_hidden: bool,
    pub sort_mode: SortMode,
    pub focus: FocusPane,
    pub input_mode: InputMode,
    pub overlay: OverlayView,
    pub entries: Seq<EntryItem>,
    pub filtered: Seq<usize>,
    pub selected: Option<usize>,
    pub search_input: Seq<char>,
    pub command_input: Seq<char>,
    pub preview: PreviewModelView,
    pub preview_target: Option<Seq<char>>,
    pub preview_scroll: u16,
    pub preview_scroll_x: u16,
    pub status: Seq<char>,
    pub key_bindings: Seq<KeyBindingView>,
    pub cache: Seq<(Seq<char>, PreviewModelView)>,
    pub cache_capacity: nat,
    pub initial_selection: Option<Seq<char>>,
    pub show_line_numbers: bool,
    pub help_resume_overlay: Option<OverlayView>,
    pub help_resume_input_mode: Option<InputMode>,
    pub help_resume_focus: Option<FocusPane>,
}

impl View for AppState {
    type V = AppStateView;

    open spec fn view(&self) -> AppStateView {
        AppStateView {
            cwd: self.cwd@,
            include_hidden: self.include_hidden,
            sort_mode: self.sort_mode,
            focus: self.focus,
            input_mode: self.input_mode,
            overlay: self.overlay@,
            entries: self.entries@,
            filtered: self.filtered@,
            selected: self.selected,
            search_input: self.search_input@,
            command_input: self.command_input@,
            preview: self.preview@,
            preview_target: crate::domain::preview::opt_view(self.preview_target),
            preview_scroll: self.preview_scroll,
            preview_scroll_x: self.preview_scroll_x,
            status: self.status@,
            key_bindings: views(self.key_bindings@),
            cache: self.preview_cache@.entries,
            cache_capacity: self.preview_cache@.capacity,
            initial_selection: crate::domain::preview::opt_view(self.initial_selection),
            show_line_numbers: self.show_line_numbers,
            help_resume_overlay: match self.help_resume_overlay {
                Some(b) => Some(b@),
                None => None,
            },
            help_resume_input_mode: self.help_resume_input_mode,
            help_resume_focus: self.help_resume_focus,
        }
    }
}

/// The state invariant: the filtered list points into the entries, the selection
/// into the filtered list, and no path is cached twice.
pub open spec fn state_wf(s: AppStateView) -> bool {
    &&& forall|k: int| 0 <= k < s.filtered.len() ==> s.filtered[k] < s.entries.len()
    &&& (s.selected matches Some(i) ==> i < s.filtered.len())
    &&& keys_unique(s.cache)
    &&& s.cache_capacity >= 1
}

/// The entry under the selection, if any.
pub open spec fn selected_entry_spec(s: AppStateView) -> Option<EntryItem> {
    match s.selected {
        Some(i) => if i < s.filtered.len() && s.filtered[i as int] < s.entries.len() {
            Some(s.entries[s.filtered[i as int] as int])
        } else {
            None
        },
        None => None,
    }
}

/// Whether an entry matches a lower-cased query: by name, path, note or summary.
pub open spec fn entry_matches(e: EntryItem, query: Seq<char>) -> bool {
    ||| contains_seq(str_lowercase(e.name@), query)
    ||| contains_seq(str_lowercase(e.path@), query)
    ||| (e.note matches Some(n) && contains_seq(str_lowercase(n@), query))
    ||| (e.auto_summary matches Some(a) && contains_seq(str_lowercase(a@), query))
}

/// The positions among the first `n` entries that match `query`, in order.
pub open spec fn matching_upto(entries: Seq<EntryItem>, query: Seq<char>, n: nat) -> Seq<usize>
    decreases n,
{
    if n == 0 {
        Seq::empty()
    } else {
        let before = matching_upto(entries, query, (n - 1) as nat);
        if entry_matches(entries[n - 1], query) {
            before.push((n - 1) as usize)
        } else {
            before
        }
    }
}

/// The visible positions for a search text: every entry when the text is empty.
pub open spec fn filter_spec(entries: Seq<EntryItem>, search: Seq<char>) -> Seq<usize> {
    if search.len() == 0 {
        Seq::new(entries.len(), |i: int| i as usize)
    } else {
        matching_upto(entries, str_lowercase(search), entries.len())
    }
}

/// The state after the filter is recomputed: the first visible entry is selected
/// and the preview is scrolled back to the top-left.
pub open spec fn after_apply_filter(s: AppStateView) -> AppStateView {
    let filtered = filter_spec(s.entries, s.search_input);
    AppStateView {
        filtered,
        selected: if filtered.len() == 0 { None } else { Some(0) },
        preview_scroll: 0,
        preview_scroll_x: 0,
        ..s
    }
}

/// The sort key of an entry: directories first, then by name, or newest first.
pub open spec fn entry_key(e: EntryItem, mode: SortMode) -> SortKeyView {
    SortKeyView {
        rank: if e.kind == EntryKind::Directory { 0 } else { 1 },
        sub_rank: match mode {
            SortMode::Name => 0,
            SortMode::Mtime => if e.mtime is Some { 0 } else { 1 },
        },
        number: match mode {
            SortMode::Name => 0,
            SortMode::Mtime => match e.mtime {
                Some(t) => (u64::MAX - t) as u64,
                None => 0,
            },
        },
        name: str_lowercase(e.name@),
    }
}

/// The sort keys of `entries`.
pub open spec fn entry_keys(entries: Seq<EntryItem>, mode: SortMode) -> Seq<SortKeyView> {
    entries.map_values(|e: EntryItem| entry_key(e, mode))
}

/// Whether `sorted` is the stable sort of `entries` for `mode`.
pub open spec fn sorted_for(entries: Seq<EntryItem>, sorted: Seq<EntryItem>, mode: SortMode) -> bool {
    exists|order: Seq<usize>|
        #![trigger stably_ordered(entry_keys(entries, mode), order)]
        stably_ordered(entry_keys(entries, mode), order) && sorted.len()
            == entries.len() && forall|k: int|
            0 <= k < sorted.len() ==> sorted[k] == entries[order[k] as int]
}

/// The stable sort of `entries`: directories first, then by `mode`.
pub fn sort_items(entries: &Vec<EntryItem>, mode: SortMode) -> (r: Vec<EntryItem>)
    ensures
        sorted_for(entries@, r@, mode),
{
    let mut keys: Vec<SortKey> = Vec::new();
    let mut i: usize = 0;
    while i < entries.len()
        invariant
            i <= entries.len(),
            keys@.len() == i,
            forall|k: int| 0 <= k < i ==> #[trigger] keys@[k]@ == entry_key(entries@[k], mode),
        decreases entries.len() - i,
    {
        keys.push(entry_sort_key(&entries[i], mode));
        i = i + 1;
    }
    let order = stable_order(&keys);
    let ghost kv = keys@.map_values(|k: SortKey| k@);
    assert(kv =~= entry_keys(entries@, mode));
    let mut sorted: Vec<EntryItem> = Vec::new();
    let mut j: usize = 0;
    while j < order.len()
        invariant
            j <= order.len() == entries.len(),
            stably_ordered(kv, order@),
            sorted@.len() == j,
            forall|k: int| 0 <= k < j ==> sorted@[k] == entries@[order@[k] as int],
        decreases order.len() - j,
    {
        sorted.push(entries[order[j]].duplicate());
        j = j + 1;
    }
    sorted
}

/// Whether the visible position `k` shows an entry with path `path`.
pub open spec fn shows_path(s: AppStateView, k: int, path: Seq<char>) -> bool {
    s.filtered[k] < s.entries.len() && s.entries[s.filtered[k] as int].path@ == path
}

/// The first visible position at or after `k` whose entry has path `path`.
pub open spec fn position_from(s: AppStateView, path: Seq<char>, k: nat) -> Option<int>
    decreases s.filtered.len() - k,
{
    if k >= s.filtered.len() {
        None
    } else if shows_path(s, k as int, path) {
        Some(k as int)
    } else {
        position_from(s, path, k + 1)
    }
}

/// The first visible position whose entry has path `path`.
pub open spec fn visible_position_of(s: AppStateView, path: Seq<char>) -> Option<int> {
    position_from(s, path, 0)
}

proof fn lemma_position_from_bounds(s: AppStateView, path: Seq<char>, k: nat)
    ensures
        position_from(s, path, k) matches Some(p) ==> k <= p < s.filtered.len(),
    decreases s.filtered.len() - k,
{
    if k < s.filtered.len() && !shows_path(s, k as int, path) {
        lemma_position_from_bounds(s, path, k + 1);
    }
}

pub open spec fn move_next_spec(s: AppStateView) -> AppStateView {
    let len = s.filtered.len();
    if len == 0 {
        AppStateView { selected: None, ..s }
    } else {
        AppStateView {
            selected: Some(
                match s.selected {
                    Some(i) => if i + 1 < len { (i + 1) as usize } else { 0 },
                    None => 0,
                },
            ),
            preview_scroll: 0,
            preview_scroll_x: 0,
            ..s
        }
    }
}

pub open spec fn move_prev_spec(s: AppStateView) -> AppStateView {
    let len = s.filtered.len();
    if len == 0 {
        AppStateView { selected: None, ..s }
    } else {
        AppStateView {
            selected: Some(
                match s.selected {
                    Some(i) => if i > 0 { (i - 1) as usize } else { (len - 1) as usize },
                    None => (len - 1) as usize,
                },
            ),
            preview_scroll: 0,
            preview_scroll_x: 0,
            ..s
        }
    }
}

pub open spec fn sort_mode_label_spec(mode: SortMode) -> Seq<char> {
    match mode {
        SortMode::Name => "名称"@,
        SortMode::Mtime => "时间"@,
    }
}

/// The help context of what currently has the user's attention.
pub open spec fn help_context_spec(s: AppStateView) -> HelpContext {
    match s.overlay {
        OverlayView::Help { context, .. } => context,
        OverlayView::BookmarkPicker { .. } => HelpContext::BookmarkPicker,
        OverlayView::NoteEditor { .. } => HelpContext::OverlayNoteEditor,
        OverlayView::Confirm { .. } => HelpContext::OverlayConfirm,
        OverlayView::Reader => HelpContext::Reader,
        OverlayView::Closed => match s.input_mode {
            InputMode::Command => HelpContext::CommandLine,
            _ => match s.focus {
                FocusPane::Explorer => HelpContext::Explorer,
                FocusPane::Preview => HelpContext::Preview,
                FocusPane::Inspector => HelpContext::Inspector,
            },
        },
    }
}

fn entry_sort_key(e: &EntryItem, mode: SortMode) -> (k: SortKey)
    ensures
        k@ == entry_key(*e, mode),
{
    let lower = to_lowercase(e.name.as_str());
    let (sub_rank, number) = match mode {
        SortMode::Name => (0u8, 0u64),
        SortMode::Mtime => match e.mtime {
            Some(t) => (0u8, u64::MAX - t),
            None => (1u8, 0u64),
        },
    };
    SortKey {
        rank: if e.kind == EntryKind::Directory { 0 } else { 1 },
        sub_rank,
        number,
        name: chars_of(lower.as_str()),
    }
}

fn entry_matches_exec(e: &EntryItem, query: &str) -> (r: bool)
    ensures
        r == entry_matches(*e, query@),
{
    let name = to_lowercase(e.name.as_str());
    if str_contains(name.as_str(), query) {
        return true;
    }
    let path = to_lowercase(e.path.as_str());
    if str_contains(path.as_str(), query) {
        return true;
    }
    let in_note = match &e.note {
        Some(n) => {
            let n = to_lowercase(n.as_str());
            str_contains(n.as_str(), query)
        },
        None => false,
    };
    if in_note {
        return true;
    }
    match &e.auto_summary {
        Some(a) => {
            let a = to_lowercase(a.as_str());
            str_contains(a.as_str(), query)
        },
        None => false,
    }
}

impl AppState {
    /// A fresh browser state for `cwd`, remembering which path to select once loaded.
    pub fn new(cwd: String, initial_selection: Option<String>) -> (r: AppState)
        ensures
            r@ == initial_state(cwd@, crate::domain::preview::opt_view(initial_selection)),
            state_wf(r@),
    {
        let preview_path = cwd.clone();
        AppState {
            cwd,
            include_hidden: false,
            sort_mode: SortMode::Name,
            focus: FocusPane::Explorer,
            input_mode: InputMode::Normal,
            overlay: OverlayState::Closed,
            entries: Vec::new(),
            filtered: Vec::new(),
            selected: None,
            search_input: String::new(),
            command_input: String::new(),
            preview: PreviewModel::Loading { path: preview_path },
            preview_target: None,
            preview_scroll: 0,
            preview_scroll_x: 0,
            status: String::new(),
            key_bindings: default_key_bindings(),
            preview_cache: PreviewCache::new(5),
            initial_selection,
            show_line_numbers: true,
            help_resume_overlay: None,
            help_resume_input_mode: None,
            help_resume_focus: None,
        }
    }

    /// Recomputes the visible entries from the search text and selects the first.
    pub fn apply_filter(&mut self)
        ensures
            final(self)@ == after_apply_filter(old(self)@),
    {
        let mut filtered: Vec<usize> = Vec::new();
        let n = self.entries.len();
        if self.search_input.as_str().unicode_len() == 0 {
            let mut i: usize = 0;
            while i < n
                invariant
                    i <= n == self.entries.len(),
                    filtered@ == Seq::new(i as nat, |k: int| k as usize),
                decreases n - i,
            {
                filtered.push(i);
                assert(filtered@ =~= Seq::new((i + 1) as nat, |k: int| k as usize));
                i = i + 1;
            }
        } else {
            let query = to_lowercase(self.search_input.as_str());
            let mut i: usize = 0;
            while i < n
                invariant
                    i <= n == self.entries.len(),
                    query@ == str_lowercase(self.search_input@),
                    filtered@ == matching_upto(self.entries@, query@, i as nat),
                decreases n - i,
            {
                if entry_matches_exec(&self.entries[i], query.as_str()) {
                    filtered.push(i);
                }
                i = i + 1;
            }
        }
        let empty = filtered.len() == 0;
        self.filtered = filtered;
        self.selected = if empty { None } else { Some(0) };
        self.reset_preview_position();
    }

    /// Orders the entries: directories first, then by the sort mode (stable).
    fn sort_entries(&mut self)
        ensures
            final(self)@ == (AppStateView { entries: final(self)@.entries, ..old(self)@ }),
            sorted_for(old(self)@.entries, final(self)@.entries, old(self)@.sort_mode),
    {
        let sorted = sort_items(&self.entries, self.sort_mode);
        self.entries = sorted;
    }

    /// Selects the first visible entry with path `path`; false when there is none.
    fn select_path(&mut self, path: &String) -> (found: bool)
        ensures
            found == (visible_position_of(old(self)@, path@) is Some),
            found ==> final(self)@ == (AppStateView {
                selected: Some(visible_position_of(old(self)@, path@)->0 as usize),
                ..old(self)@
            }),
            !found ==> final(self)@ == old(self)@,
    {
        let mut k: usize = 0;
        proof {
            lemma_position_from_bounds(self@, path@, 0);
        }
        while k < self.filtered.len()
            invariant
                k <= self.filtered.len(),
                self@ == old(self)@,
                position_from(self@, path@, 0) == position_from(self@, path@, k as nat),
            decreases self.filtered.len() - k,
        {
            let idx = self.filtered[k];
            if idx < self.entries.len() && crate::text::str_eq(self.entries[idx].path.as_str(), path.as_str()) {
                assert(shows_path(self@, k as int, path@));
                self.selected = Some(k);
                return true;
            }
            assert(!shows_path(self@, k as int, path@));
            k = k + 1;
        }
        false
    }

    /// Replaces the entries, sorts and filters them, and selects the remembered path once.
    pub fn set_entries(&mut self, entries: Vec<EntryItem>)
        ensures
            set_entries_post(old(self)@, entries@, final(self)@),
    {
        self.entries = entries;
        self.sort_entries();
        self.apply_filter();
        let target = match &self.initial_selection {
            Some(t) => Some(t.clone()),
            None => None,
        };
        if let Some(target) = target {
            if self.select_path(&target) {
                self.initial_selection = None;
            }
        }
    }

    /// The number of visible entries.
    pub fn visible_len(&self) -> (r: usize)
        ensures
            r == self.filtered@.len(),
    {
        self.filtered.len()
    }

    /// The entry under the selection, if any.
    pub fn selected_entry(&self) -> (r: Option<&EntryItem>)
        ensures
            match r {
                Some(e) => selected_entry_spec(self@) == Some(*e),
                None => selected_entry_spec(self@) is None,
            },
    {
        let selected = match self.selected {
            Some(i) => i,
            None => return None,
        };
        if selected >= self.filtered.len() {
            return None;
        }
        let idx = self.filtered[selected];
        if idx >= self.entries.len() {
            return None;
        }
        Some(&self.entries[idx])
    }

    /// The path of the entry under the selection, if any.
    pub fn selected_entry_path(&self) -> (r: Option<&String>)
        ensures
            match r {
                Some(p) => selected_entry_spec(self@) matches Some(e) && e.path == *p,
                None => selected_entry_spec(self@) is None,
            },
    {
        match self.selected_entry() {
            Some(e) => Some(&e.path),
            None => None,
        }
    }

    /// A copy of the entry under the selection, if any.
    pub fn selected_entry_clone(&self) -> (r: Option<EntryItem>)
        ensures
            r == selected_entry_spec(self@),
    {
        match self.selected_entry() {
            Some(e) => Some(e.duplicate()),
            None => None,
        }
    }

    /// Moves the selection down, wrapping to the top.
    pub fn move_next(&mut self)
        ensures
            final(self)@ == move_next_spec(old(self)@),
    {
        let len = self.visible_len();
        if len == 0 {
            self.selected = None;
            return;
        }
        self.selected = Some(
            match self.selected {
                Some(index) => if index < len - 1 { index + 1 } else { 0 },
                None => 0,
            },
        );
        self.reset_preview_position();
    }

    /// Moves the selection up, wrapping to the bottom.
    pub fn move_prev(&mut self)
        ensures
            final(self)@ == move_prev_spec(old(self)@),
    {
        let len = self.visible_len();
        if len == 0 {
            self.selected = None;
            return;
        }
        self.selected = Some(
            match self.selected {
                Some(index) => if index > 0 { index - 1 } else { len - 1 },
                None => len - 1,
            },
        );
        self.reset_preview_position();
    }

    /// Replaces the status line text.
    pub fn set_status(&mut self, status: String)
        ensures
            final(self)@ == (AppStateView { status: status@, ..old(self)@ }),
    {
        self.status = status;
    }

    /// Scrolls the preview back to the top-left corner.
    pub fn reset_preview_position(&mut self)
        ensures
            final(self)@ == (AppStateView { preview_scroll: 0, preview_scroll_x: 0, ..old(self)@ }),
    {
        self.preview_scroll = 0;
        self.preview_scroll_x = 0;
    }

    /// Changes the sort mode, re-sorts and re-filters.
    pub fn set_sort_mode(&mut self, sort_mode: SortMode)
        ensures
            exists|sorted: Seq<EntryItem>|
                sorted_for(old(self)@.entries, sorted, sort_mode) && final(self)@
                    == after_apply_filter((AppStateView { sort_mode, entries: sorted, ..old(self)@ })),
    {
        let ghost pre = self@;
        self.sort_mode = sort_mode;
        self.sort_entries();
        let ghost sorted = self@.entries;
        self.apply_filter();
        assert(sorted_for(pre.entries, sorted, sort_mode) && self@ == after_apply_filter(
            (AppStateView { sort_mode, entries: sorted, ..pre }),
        ));
    }

    /// The name of the sort mode.
    pub fn sort_mode_label(&self) -> (r: &'static str)
        ensures
            r@ == sort_mode_label_spec(self.sort_mode),
    {
        match self.sort_mode {
            SortMode::Name => "名称",
            SortMode::Mtime => "时间",
        }
    }

    /// The help context of what currently has the user's attention.
    pub fn current_help_context(&self) -> (r: HelpContext)
        ensures
            r == help_context_spec(self@),
    {
        match &self.overlay {
            OverlayState::Help { context, .. } => *context,
            OverlayState::BookmarkPicker { .. } => HelpContext::BookmarkPicker,
            OverlayState::NoteEditor { .. } => HelpContext::OverlayNoteEditor,
            OverlayState::Confirm { .. } => HelpContext::OverlayConfirm,
            OverlayState::Reader => HelpContext::Reader,
            OverlayState::Closed => match self.input_mode {
                InputMode::Command => HelpContext::CommandLine,
                InputMode::Normal | InputMode::Search => match self.focus {
                    FocusPane::Explorer => HelpContext::Explorer,
                    FocusPane::Preview => HelpContext::Preview,
                    FocusPane::Inspector => HelpContext::Inspector,
                },
            },
        }
    }
}

/// The state of a freshly opened browser.
pub open spec fn initial_state(cwd: Seq<char>, initial_selection: Option<Seq<char>>) -> AppStateView {
    AppStateView {
        cwd,
        include_hidden: false,
        sort_mode: SortMode::Name,
        focus: FocusPane::Explorer,
        input_mode: InputMode::Normal,
        overlay: OverlayView::Closed,
        entries: Seq::empty(),
        filtered: Seq::empty(),
        selected: None,
        search_input: Seq::empty(),
        command_input: Seq::empty(),
        preview: PreviewModelView::Loading { path: cwd },
        preview_target: None,
        preview_scroll: 0,
        preview_scroll_x: 0,
        status: Seq::empty(),
        key_bindings: default_bindings_spec(),
        cache: Seq::empty(),
        cache_capacity: 5,
        initial_selection,
        show_line_numbers: true,
        help_resume_overlay: None,
        help_resume_input_mode: None,
        help_resume_focus: None,
    }
}

/// The state after new entries arrive: sorted, filtered, and the remembered path
/// selected (and forgotten) when it is visible.
pub open spec fn set_entries_post(pre: AppStateView, entries: Seq<EntryItem>, post: AppStateView) -> bool {
    exists|sorted: Seq<EntryItem>|
        #![trigger sorted_for(entries, sorted, pre.sort_mode)]
        sorted_for(entries, sorted, pre.sort_mode) && {
            let filtered = after_apply_filter(AppStateView { entries: sorted, ..pre });
            match pre.initial_selection {
                Some(t) => match visible_position_of(filtered, t) {
                    Some(k) => post == AppStateView {
                        selected: Some(k as usize),
                        initial_selection: None,
                        ..filtered
                    },
                    None => post == filtered,
                },
                None => post == filtered,
            }
        }
}

} // verus!
