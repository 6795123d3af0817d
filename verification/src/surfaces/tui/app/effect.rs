//! Outside work the browser asks for.
use vstd::prelude::*;
use crate::domain::entry::EntryItem;

verus! {

/// Work to be done outside the state machine; its outcome comes back as an action.
#[derive(Debug, Clone)]
pub enum Effect {
    LoadDir { cwd: String, include_hidden: bool },
    LoadPreview { entry: EntryItem, viewport_hint: usize },
    SaveNote { path: String, note: String },
    DeleteNote { path: String },
    LoadBookmarks,
    JumpBookmark { name: String, include_hidden: bool },
    SaveBookmark { name: String, path: String },
    DeleteBookmark { name: String },
    ToggleBookmark { name: String, path: String },
    OpenExternal(String),
}

pub enum EffectView {
    LoadDir { cwd: Seq<char>, include_hidden: bool },
    LoadPreview { entry: EntryItem, viewport_hint: usize },
    SaveNote { path: Seq<char>, note: Seq<char> },
    DeleteNote { path: Seq<char> },
    LoadBookmarks,
    JumpBookmark { name: Seq<char>, include_hidden: bool },
    SaveBookmark { name: Seq<char>, path: Seq<char> },
    DeleteBookmark { name: Seq<char> },
    ToggleBookmark { name: Seq<char>, path: Seq<char> },
    OpenExternal(Seq<char>),
}

impl View for Effect {
    type V = EffectView;

    open spec fn view(&self) -> EffectView {
        match self {
            Effect::LoadDir { cwd, include_hidden } => EffectView::LoadDir {
                cwd: cwd@,
                include_hidden: *include_hidden,
            },
            Effect::LoadPreview { entry, viewport_hint } => EffectView::LoadPreview {
                entry: *entry,
                viewport_hint: *viewport_hint,
            },
            Effect::SaveNote { path, note } => EffectView::SaveNote { path: path@, note: note@ },
            Effect::DeleteNote { path } => EffectView::DeleteNote { path: path@ },
            Effect::LoadBookmarks => EffectView::LoadBookmarks,
            Effect::JumpBookmark { name, include_hidden } => EffectView::JumpBookmark {
                name: name@,
                include_hidden: *include_hidden,
            },
            Effect::SaveBookmark { name, path } => EffectView::SaveBookmark {
                name: name@,
                path: path@,
            },
            Effect::DeleteBookmark { name } => EffectView::DeleteBookmark { name: name@ },
            Effect::ToggleBookmark { name, path } => EffectView::ToggleBookmark {
                name: name@,
                path: path@,
            },
            Effect::OpenExternal(p) => EffectView::OpenExternal(p@),
        }
    }
}

} // verus!
