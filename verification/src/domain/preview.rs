use vstd::prelude::*;
use crate::text::{Duplicate, views, duplicate_vec, trim_end_newlines};

verus! {

/// An RGB foreground color.
#[derive(Debug, Clone, Copy, PartialEq, Eq, Structural)]
pub struct PreviewColor {
    pub r: u8,
    pub g: u8,
    pub b: u8,
}

/// A run of text sharing one style.
#[derive(Debug, Clone)]
pub struct PreviewSpan {
    pub text: String,
    pub fg: Option<PreviewColor>,
    pub bold: bool,
    pub dim: bool,
}

pub struct PreviewSpanView {
    pub text: Seq<char>,
    pub fg: Option<PreviewColor>,
    pub bold: bool,
    pub dim: bool,
}

impl View for PreviewSpan {
    type V = PreviewSpanView;

    open spec fn view(&self) -> PreviewSpanView {
        PreviewSpanView { text: self.text@, fg: self.fg, bold: self.bold, dim: self.dim }
    }
}

impl Duplicate for PreviewSpan {
    fn duplicate(&self) -> (r: PreviewSpan) {
        PreviewSpan { text: self.text.clone(), fg: self.fg, bold: self.bold, dim: self.dim }
    }
}

/// One line of a preview, as a list of styled spans.
#[derive(Debug, Clone)]
pub struct PreviewLine {
    pub spans: Vec<PreviewSpan>,
}

impl View for PreviewLine {
    type V = Seq<PreviewSpanView>;

    open spec fn view(&self) -> Seq<PreviewSpanView> {
        views(self.spans@)
    }
}

impl Duplicate for PreviewLine {
    fn duplicate(&self) -> (r: PreviewLine) {
        PreviewLine { spans: duplicate_vec(&self.spans) }
    }
}

/// A span with the given text and no style.
pub open spec fn plain_span(text: Seq<char>) -> PreviewSpanView {
    PreviewSpanView { text, fg: None, bold: false, dim: false }
}

impl PreviewLine {
    /// A single unstyled span holding `text` without its trailing line breaks.
    pub fn plain(text: &str) -> (r: PreviewLine)
        ensures
            r@ == seq![plain_span(trim_end_newlines(text@))],
    {
        let chars = crate::text::chars_of(text);
        let mut n = chars.len();
        assert(chars@.take(n as int) =~= chars@);
        while n > 0 && (chars[n - 1] == '\r' || chars[n - 1] == '\n')
            invariant
                n <= chars.len(),
                trim_end_newlines(text@) == trim_end_newlines(chars@.take(n as int)),
            decreases n,
        {
            assert(chars@.take(n as int).drop_last() =~= chars@.take(n - 1));
            n = n - 1;
        }
        let mut kept: Vec<char> = Vec::new();
        let mut i: usize = 0;
        while i < n
            invariant
                i <= n <= chars.len(),
                kept@ == chars@.take(i as int),
            decreases n - i,
        {
            kept.push(chars[i]);
            assert(chars@.take(i as int).push(chars@[i as int]) =~= chars@.take(i + 1));
            i = i + 1;
        }
        assert(chars@.take(0) =~= Seq::<char>::empty());
        let text = crate::text::string_from(&kept);
        let r = PreviewLine { spans: vec![PreviewSpan { text, fg: None, bold: false, dim: false }] };
        assert(r@ =~= seq![plain_span(trim_end_newlines(chars@))]);
        r
    }
}

/// The kind of content a preview shows.
#[derive(Debug, Clone, Copy, PartialEq, Eq, Structural)]
pub enum PreviewKind {
    Directory,
    Markdown,
    Code,
    Text,
    Archive,
    Pdf,
    Image,
    Binary,
    Unsupported,
}

pub open spec fn preview_kind_label(kind: PreviewKind) -> Seq<char> {
    match kind {
        PreviewKind::Directory => "目录"@,
        PreviewKind::Markdown => "Markdown"@,
        PreviewKind::Code => "代码"@,
        PreviewKind::Text => "文本"@,
        PreviewKind::Archive => "压缩包"@,
        PreviewKind::Pdf => "PDF"@,
        PreviewKind::Image => "图片"@,
        PreviewKind::Binary => "二进制"@,
        PreviewKind::Unsupported => "未支持"@,
    }
}

impl PreviewKind {
    pub fn label(self) -> (r: &'static str)
        ensures
            r@ == preview_kind_label(self),
    {
        match self {
            PreviewKind::Directory => "目录",
            PreviewKind::Markdown => "Markdown",
            PreviewKind::Code => "代码",
            PreviewKind::Text => "文本",
            PreviewKind::Archive => "压缩包",
            PreviewKind::Pdf => "PDF",
            PreviewKind::Image => "图片",
            PreviewKind::Binary => "二进制",
            PreviewKind::Unsupported => "未支持",
        }
    }
}

/// Whether long preview lines wrap.
#[derive(Debug, Clone, Copy, PartialEq, Eq, Structural)]
pub enum PreviewWrapMode {
    Wrap,
    NoWrap,
}

impl PreviewWrapMode {
    pub fn should_wrap(self) -> (r: bool)
        ensures
            r == (self == PreviewWrapMode::Wrap),
    {
        match self {
            PreviewWrapMode::Wrap => true,
            PreviewWrapMode::NoWrap => false,
        }
    }
}

/// The abstract content of a preview document (and of a preview result).
pub struct PreviewDocView {
    pub kind: PreviewKind,
    pub title: Seq<char>,
    pub subtitle: Option<Seq<char>>,
    pub provider_name: Seq<char>,
    pub degraded: bool,
    pub metadata: Seq<(Seq<char>, Seq<char>)>,
    pub warnings: Seq<Seq<char>>,
    pub actions: Seq<Seq<char>>,
    pub wrap_mode: PreviewWrapMode,
    pub lines: Seq<Seq<PreviewSpanView>>,
    pub first_line_number: usize,
}

pub open spec fn opt_view(s: Option<String>) -> Option<Seq<char>> {
    match s {
        Some(v) => Some(v@),
        None => None,
    }
}

/// A fully loaded preview.
#[derive(Debug, Clone)]
pub struct PreviewDocument {
    pub kind: PreviewKind,
    pub title: String,
    pub subtitle: Option<String>,
    pub provider_name: String,
    pub degraded: bool,
    pub metadata: Vec<(String, String)>,
    pub warnings: Vec<String>,
    pub actions: Vec<String>,
    pub wrap_mode: PreviewWrapMode,
    pub lines: Vec<PreviewLine>,
    pub first_line_number: usize,
}

impl View for PreviewDocument {
    type V = PreviewDocView;

    open spec fn view(&self) -> PreviewDocView {
        PreviewDocView {
            kind: self.kind,
            title: self.title@,
            subtitle: opt_view(self.subtitle),
            provider_name: self.provider_name@,
            degraded: self.degraded,
            metadata: views(self.metadata@),
            warnings: views(self.warnings@),
            actions: views(self.actions@),
            wrap_mode: self.wrap_mode,
            lines: views(self.lines@),
            first_line_number: self.first_line_number,
        }
    }
}

impl Duplicate for PreviewDocument {
    fn duplicate(&self) -> (r: PreviewDocument) {
        PreviewDocument {
            kind: self.kind,
            title: self.title.clone(),
            subtitle: crate::domain::entry::duplicate_opt_string(&self.subtitle),
            provider_name: self.provider_name.clone(),
            degraded: self.degraded,
            metadata: duplicate_vec(&self.metadata),
            warnings: duplicate_vec(&self.warnings),
            actions: duplicate_vec(&self.actions),
            wrap_mode: self.wrap_mode,
            lines: duplicate_vec(&self.lines),
            first_line_number: self.first_line_number,
        }
    }
}

/// What a preview provider produces.
#[derive(Debug, Clone)]
pub struct PreviewResult {
    pub kind: PreviewKind,
    pub title: String,
    pub subtitle: Option<String>,
    pub provider_name: String,
    pub degraded: bool,
    pub metadata: Vec<(String, String)>,
    pub warnings: Vec<String>,
    pub actions: Vec<String>,
    pub wrap_mode: PreviewWrapMode,
    pub lines: Vec<PreviewLine>,
    pub first_line_number: usize,
}

impl View for PreviewResult {
    type V = PreviewDocView;

    open spec fn view(&self) -> PreviewDocView {
        PreviewDocView {
            kind: self.kind,
            title: self.title@,
            subtitle: opt_view(self.subtitle),
            provider_name: self.provider_name@,
            degraded: self.degraded,
            metadata: views(self.metadata@),
            warnings: views(self.warnings@),
            actions: views(self.actions@),
            wrap_mode: self.wrap_mode,
            lines: views(self.lines@),
            first_line_number: self.first_line_number,
        }
    }
}

impl PreviewResult {
    /// The document model that shows this result.
    pub fn into_model(self) -> (r: PreviewModel)
        ensures
            r@ == PreviewModelView::Document(self@),
    {
        PreviewModel::Document(
            PreviewDocument {
                kind: self.kind,
                title: self.title,
                subtitle: self.subtitle,
                provider_name: self.provider_name,
                degraded: self.degraded,
                metadata: self.metadata,
                warnings: self.warnings,
                actions: self.actions,
                wrap_mode: self.wrap_mode,
                lines: self.lines,
                first_line_number: self.first_line_number,
            },
        )
    }
}

/// The state of the preview of one path.
#[derive(Debug, Clone)]
pub enum PreviewModel {
    Loading { path: String },
    Document(PreviewDocument),
    Failed { path: String, message: String },
}

pub enum PreviewModelView {
    Loading { path: Seq<char> },
    Document(PreviewDocView),
    Failed { path: Seq<char>, message: Seq<char> },
}

impl View for PreviewModel {
    type V = PreviewModelView;

    open spec fn view(&self) -> PreviewModelView {
        match self {
            PreviewModel::Loading { path } => PreviewModelView::Loading { path: path@ },
            PreviewModel::Document(d) => PreviewModelView::Document(d@),
            PreviewModel::Failed { path, message } => PreviewModelView::Failed {
                path: path@,
                message: message@,
            },
        }
    }
}

impl Duplicate for PreviewModel {
    fn duplicate(&self) -> (r: PreviewModel) {
        match self {
            PreviewModel::Loading { path } => PreviewModel::Loading { path: path.clone() },
            PreviewModel::Document(d) => PreviewModel::Document(d.duplicate()),
            PreviewModel::Failed { path, message } => PreviewModel::Failed {
                path: path.clone(),
                message: message.clone(),
            },
        }
    }
}

} // verus!
