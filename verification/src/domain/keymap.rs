use vstd::prelude::*;
use crate::text::{Duplicate, views, duplicate_vec};

verus! {

/// Where a key binding applies.
#[derive(Debug, Clone, Copy, PartialEq, Eq, Structural)]
pub enum HelpContext {
    Explorer,
    Preview,
    Inspector,
    Reader,
    OverlayHelp,
    OverlayNoteEditor,
    OverlayConfirm,
    CommandLine,
    BookmarkPicker,
}

/// The help category of a key binding; categories are ordered as declared.
#[derive(Debug, Clone, Copy, PartialEq, Eq, Structural, PartialOrd, Ord)]
pub enum HelpCategory {
    Navigation,
    OpenClose,
    SearchFilter,
    NotesBookmarks,
    PreviewAction,
    LayoutFocus,
    Editing,
    Advanced,
}

/// The position of a category in the declared order.
pub open spec fn category_rank(c: HelpCategory) -> int {
    match c {
        HelpCategory::Navigation => 0,
        HelpCategory::OpenClose => 1,
        HelpCategory::SearchFilter => 2,
        HelpCategory::NotesBookmarks => 3,
        HelpCategory::PreviewAction => 4,
        HelpCategory::LayoutFocus => 5,
        HelpCategory::Editing => 6,
        HelpCategory::Advanced => 7,
    }
}

pub fn category_index(c: HelpCategory) -> (r: u8)
    ensures
        r == category_rank(c),
{
    match c {
        HelpCategory::Navigation => 0,
        HelpCategory::OpenClose => 1,
        HelpCategory::SearchFilter => 2,
        HelpCategory::NotesBookmarks => 3,
        HelpCategory::PreviewAction => 4,
        HelpCategory::LayoutFocus => 5,
        HelpCategory::Editing => 6,
        HelpCategory::Advanced => 7,
    }
}

/// One documented key binding.
#[derive(Debug, Clone)]
pub struct KeyBinding {
    pub context: HelpContext,
    pub category: HelpCategory,
    pub keys: Vec<String>,
    pub label: String,
    pub detail: String,
    pub primary: bool,
}

pub struct KeyBindingView {
    pub context: HelpContext,
    pub category: HelpCategory,
    pub keys: Seq<Seq<char>>,
    pub label: Seq<char>,
    pub detail: Seq<char>,
    pub primary: bool,
}

impl View for KeyBinding {
    type V = KeyBindingView;

    open spec fn view(&self) -> KeyBindingView {
        KeyBindingView {
            context: self.context,
            category: self.category,
            keys: views(self.keys@),
            label: self.label@,
            detail: self.detail@,
            primary: self.primary,
        }
    }
}

impl Duplicate for KeyBinding {
    fn duplicate(&self) -> (r: KeyBinding) {
        KeyBinding {
            context: self.context,
            category: self.category,
            keys: duplicate_vec(&self.keys),
            label: self.label.clone(),
            detail: self.detail.clone(),
            primary: self.primary,
        }
    }
}

/// The view of a binding built from the given parts.
pub open spec fn binding_view(
    context: HelpContext,
    category: HelpCategory,
    keys: Seq<&str>,
    label: &str,
    detail: &str,
    primary: bool,
) -> KeyBindingView {
    KeyBindingView {
        context,
        category,
        keys: keys.map_values(|k: &str| k@),
        label: label@,
        detail: detail@,
        primary,
    }
}

impl KeyBinding {
    /// A secondary binding.
    pub fn new(
        context: HelpContext,
        category: HelpCategory,
        keys: &[&str],
        label: &str,
        detail: &str,
    ) -> (r: KeyBinding)
        ensures
            r@ == binding_view(context, category, keys@, label, detail, false),
    {
        let mut owned: Vec<String> = Vec::new();
        let mut i: usize = 0;
        while i < keys.len()
            invariant
                i <= keys@.len(),
                views(owned@) == keys@.take(i as int).map_values(|k: &str| k@),
            decreases keys@.len() - i,
        {
            let k = String::from_str(keys[i]);
            let ghost old_owned = owned@;
            owned.push(k);
            assert(views(owned@) =~= views(old_owned).push(k@));
            assert(keys@.take(i + 1).map_values(|k: &str| k@) =~= keys@.take(i as int).map_values(
                |k: &str| k@,
            ).push(keys@[i as int]@));
            i = i + 1;
        }
        assert(keys@.take(keys@.len() as int) =~= keys@);
        KeyBinding {
            context,
            category,
            keys: owned,
            label: String::from_str(label),
            detail: String::from_str(detail),
            primary: false,
        }
    }

    /// A binding shown in the footer.
    pub fn primary(
        context: HelpContext,
        category: HelpCategory,
        keys: &[&str],
        label: &str,
        detail: &str,
    ) -> (r: KeyBinding)
        ensures
            r@ == binding_view(context, category, keys@, label, detail, true),
    {
        let mut binding = Self::new(context, category, keys, label, detail);
        binding.primary = true;
        binding
    }
}

} // verus!
