//! The single source of truth for the documented key bindings.
use vstd::prelude::*;
use crate::domain::keymap::{HelpCategory, HelpContext, KeyBinding, KeyBindingView, binding_view};
use crate::text::{views, append_str, join_strings, padded, join, pad_right};

verus! {

pub open spec fn bindings_part0_spec() -> Seq<KeyBindingView> {
    seq![
        binding_view(HelpContext::Explorer, HelpCategory::Navigation, seq!["j", "Down"], "下移", "在列表中下移", true),
        binding_view(HelpContext::Explorer, HelpCategory::Navigation, seq!["k", "Up"], "上移", "在列表中上移", false),
        binding_view(HelpContext::Explorer, HelpCategory::OpenClose, seq!["Enter"], "打开", "进入目录或打开全屏阅读", true),
        binding_view(HelpContext::Explorer, HelpCategory::OpenClose, seq!["Backspace", "h"], "返回", "返回上级目录", true),
        binding_view(HelpContext::Explorer, HelpCategory::SearchFilter, seq!["/"], "搜索", "按名称、备注和摘要过滤", true),
        binding_view(HelpContext::Explorer, HelpCategory::SearchFilter, seq!["Esc"], "清除过滤", "清除当前已应用的搜索过滤", false),
        binding_view(HelpContext::Explorer, HelpCategory::LayoutFocus, seq!["Tab"], "切换焦点", "在列表、预览和信息面板之间切换", false),
        binding_view(HelpContext::Explorer, HelpCategory::NotesBookmarks, seq!["m"], "备注", "编辑当前项备注", true),
        binding_view(HelpContext::Explorer, HelpCategory::NotesBookmarks, seq!["p"], "收藏", "收藏当前目录或当前选中的目录", false),
        binding_view(HelpContext::Explorer, HelpCategory::NotesBookmarks, seq!["B"], "书签列表", "打开书签选择器", false),
        binding_view(HelpContext::Explorer, HelpCategory::PreviewAction, seq!["o"], "外部打开", "用系统默认程序打开", false),
        binding_view(HelpContext::Explorer, HelpCategory::SearchFilter, seq!["."], "隐藏文件", "切换隐藏文件显示", false),
        binding_view(HelpContext::Explorer, HelpCategory::Advanced, seq![":"], "命令行", "打开底部命令行", false),
    ]
}

pub open spec fn bindings_part1_spec() -> Seq<KeyBindingView> {
    seq![
        binding_view(HelpContext::Explorer, HelpCategory::Advanced, seq!["?", "F1"], "帮助", "打开帮助覆盖层", true),
        binding_view(HelpContext::Explorer, HelpCategory::OpenClose, seq!["q"], "退出", "退出当前界面", true),
        binding_view(HelpContext::Preview, HelpCategory::Navigation, seq!["j", "k", "Down", "Up"], "滚动", "滚动预览区域", true),
        binding_view(HelpContext::Preview, HelpCategory::Navigation, seq!["PageDown", "PageUp"], "翻页", "按页滚动预览", false),
        binding_view(HelpContext::Preview, HelpCategory::Navigation, seq!["H", "L"], "横移", "左右横向滚动长行内容", false),
        binding_view(HelpContext::Preview, HelpCategory::OpenClose, seq!["Enter"], "阅读", "打开全屏阅读视图", false),
        binding_view(HelpContext::Preview, HelpCategory::PreviewAction, seq!["n"], "行号", "切换代码行号显示", true),
        binding_view(HelpContext::Preview, HelpCategory::PreviewAction, seq!["o"], "外部打开", "用系统默认程序打开当前文件", true),
        binding_view(HelpContext::Preview, HelpCategory::LayoutFocus, seq!["Tab"], "切换焦点", "切到信息面板或返回列表", true),
        binding_view(HelpContext::Preview, HelpCategory::LayoutFocus, seq!["h", "Left"], "返回列表", "把焦点切回文件列表", false),
        binding_view(HelpContext::Preview, HelpCategory::SearchFilter, seq!["Esc"], "清除过滤", "清除当前已应用的搜索过滤", false),
        binding_view(HelpContext::Preview, HelpCategory::Advanced, seq!["?", "F1"], "帮助", "打开帮助覆盖层", true),
        binding_view(HelpContext::Preview, HelpCategory::OpenClose, seq!["q"], "退出", "退出当前界面", true),
    ]
}

pub open spec fn bindings_part2_spec() -> Seq<KeyBindingView> {
    seq![
        binding_view(HelpContext::Inspector, HelpCategory::Navigation, seq!["j", "k", "Down", "Up"], "滚动", "滚动当前信息面板", false),
        binding_view(HelpContext::Inspector, HelpCategory::PreviewAction, seq!["n"], "行号", "切换代码行号显示", false),
        binding_view(HelpContext::Inspector, HelpCategory::SearchFilter, seq!["Esc"], "清除过滤", "清除当前已应用的搜索过滤", false),
        binding_view(HelpContext::Inspector, HelpCategory::OpenClose, seq!["Enter"], "阅读", "打开全屏阅读视图", false),
        binding_view(HelpContext::Reader, HelpCategory::Navigation, seq!["j", "k", "Down", "Up"], "滚动", "滚动全屏阅读视图", true),
        binding_view(HelpContext::Reader, HelpCategory::Navigation, seq!["PageDown", "PageUp"], "翻页", "按页滚动阅读视图", false),
        binding_view(HelpContext::Reader, HelpCategory::Navigation, seq!["Left", "Right", "H", "L"], "横移", "左右横向滚动长行内容", false),
        binding_view(HelpContext::Reader, HelpCategory::PreviewAction, seq!["n"], "行号", "切换代码行号显示", true),
        binding_view(HelpContext::Reader, HelpCategory::PreviewAction, seq!["o"], "外部打开", "用系统默认程序打开当前文件", false),
        binding_view(HelpContext::Reader, HelpCategory::Advanced, seq!["?", "F1"], "帮助", "打开帮助覆盖层", true),
        binding_view(HelpContext::Reader, HelpCategory::OpenClose, seq!["Esc", "q"], "关闭", "关闭阅读视图", true),
        binding_view(HelpContext::OverlayHelp, HelpCategory::OpenClose, seq!["Esc", "q", "?"], "关闭帮助", "关闭帮助覆盖层", false),
        binding_view(HelpContext::OverlayHelp, HelpCategory::Navigation, seq!["Up", "Down", "PageDown", "PageUp"], "滚动", "滚动帮助内容", false),
    ]
}

pub open spec fn bindings_part3_spec() -> Seq<KeyBindingView> {
    seq![
        binding_view(HelpContext::OverlayHelp, HelpCategory::LayoutFocus, seq!["Left", "Right", "Tab", "Shift-Tab"], "切换分类", "切换当前帮助分类", false),
        binding_view(HelpContext::OverlayHelp, HelpCategory::SearchFilter, seq!["直接输入", "Backspace"], "过滤", "按关键字过滤帮助项", false),
        binding_view(HelpContext::OverlayNoteEditor, HelpCategory::Editing, seq!["Enter"], "保存", "保存备注", true),
        binding_view(HelpContext::OverlayNoteEditor, HelpCategory::OpenClose, seq!["Esc"], "取消", "取消编辑并关闭备注层", true),
        binding_view(HelpContext::OverlayNoteEditor, HelpCategory::Editing, seq!["Ctrl-U"], "清空", "清空当前备注内容", true),
        binding_view(HelpContext::OverlayNoteEditor, HelpCategory::Advanced, seq!["?", "F1"], "帮助", "打开帮助覆盖层", true),
        binding_view(HelpContext::BookmarkPicker, HelpCategory::Navigation, seq!["j", "k", "Down", "Up"], "选择", "上下选择书签", true),
        binding_view(HelpContext::BookmarkPicker, HelpCategory::OpenClose, seq!["Enter"], "跳转", "打开选中的书签目录", true),
        binding_view(HelpContext::BookmarkPicker, HelpCategory::NotesBookmarks, seq!["d"], "删除", "删除当前书签", true),
        binding_view(HelpContext::BookmarkPicker, HelpCategory::OpenClose, seq!["Esc"], "关闭", "关闭书签选择器", true),
        binding_view(HelpContext::BookmarkPicker, HelpCategory::Advanced, seq!["?", "F1"], "帮助", "打开帮助覆盖层", true),
        binding_view(HelpContext::OverlayConfirm, HelpCategory::OpenClose, seq!["Enter", "y"], "确认", "确认当前操作", false),
        binding_view(HelpContext::OverlayConfirm, HelpCategory::OpenClose, seq!["Esc", "n"], "取消", "取消当前操作", false),
    ]
}

pub open spec fn bindings_part4_spec() -> Seq<KeyBindingView> {
    seq![
        binding_view(HelpContext::OverlayConfirm, HelpCategory::Advanced, seq!["?", "F1"], "帮助", "打开帮助覆盖层", false),
        binding_view(HelpContext::CommandLine, HelpCategory::Advanced, seq![":help"], "帮助", "显示帮助页", false),
        binding_view(HelpContext::CommandLine, HelpCategory::NotesBookmarks, seq![":bookmark add [name]"], "添加书签", "保存当前目录书签", false),
        binding_view(HelpContext::CommandLine, HelpCategory::NotesBookmarks, seq![":bookmark jump NAME"], "跳转书签", "跳转到命名书签", false),
        binding_view(HelpContext::CommandLine, HelpCategory::NotesBookmarks, seq![":bookmark list"], "书签列表", "打开书签选择器", false),
        binding_view(HelpContext::CommandLine, HelpCategory::NotesBookmarks, seq![":note edit"], "编辑备注", "打开备注编辑层", false),
        binding_view(HelpContext::CommandLine, HelpCategory::NotesBookmarks, seq![":note clear"], "清空备注", "删除当前项备注", false),
        binding_view(HelpContext::CommandLine, HelpCategory::SearchFilter, seq![":sort name"], "名称排序", "按名称排序", false),
        binding_view(HelpContext::CommandLine, HelpCategory::SearchFilter, seq![":sort mtime"], "时间排序", "按修改时间排序", false),
        binding_view(HelpContext::CommandLine, HelpCategory::SearchFilter, seq![":toggle hidden"], "隐藏文件", "切换隐藏文件显示", false),
        binding_view(HelpContext::CommandLine, HelpCategory::PreviewAction, seq![":inspect"], "阅读视图", "打开当前项全屏阅读", false),
        binding_view(HelpContext::CommandLine, HelpCategory::PreviewAction, seq![":toggle numbers"], "切换行号", "切换代码行号显示", false),
        binding_view(HelpContext::CommandLine, HelpCategory::PreviewAction, seq![":open external"], "外部打开", "使用系统默认程序打开", false),
        binding_view(HelpContext::CommandLine, HelpCategory::OpenClose, seq![":quit"], "退出", "退出当前界面", false),
    ]
}

/// Every documented key binding, in documentation order.
pub open spec fn default_bindings_spec() -> Seq<KeyBindingView> {
    bindings_part0_spec() + bindings_part1_spec() + bindings_part2_spec() + bindings_part3_spec() + bindings_part4_spec()
}

fn bindings_part0() -> (r: Vec<KeyBinding>)
    ensures
        views(r@) == bindings_part0_spec(),
{
    let r = vec![
        KeyBinding::primary(HelpContext::Explorer, HelpCategory::Navigation, &["j", "Down"], "下移", "在列表中下移"),
        KeyBinding::new(HelpContext::Explorer, HelpCategory::Navigation, &["k", "Up"], "上移", "在列表中上移"),
        KeyBinding::primary(HelpContext::Explorer, HelpCategory::OpenClose, &["Enter"], "打开", "进入目录或打开全屏阅读"),
        KeyBinding::primary(HelpContext::Explorer, HelpCategory::OpenClose, &["Backspace", "h"], "返回", "返回上级目录"),
        KeyBinding::primary(HelpContext::Explorer, HelpCategory::SearchFilter, &["/"], "搜索", "按名称、备注和摘要过滤"),
        KeyBinding::new(HelpContext::Explorer, HelpCategory::SearchFilter, &["Esc"], "清除过滤", "清除当前已应用的搜索过滤"),
        KeyBinding::new(HelpContext::Explorer, HelpCategory::LayoutFocus, &["Tab"], "切换焦点", "在列表、预览和信息面板之间切换"),
        KeyBinding::primary(HelpContext::Explorer, HelpCategory::NotesBookmarks, &["m"], "备注", "编辑当前项备注"),
        KeyBinding::new(HelpContext::Explorer, HelpCategory::NotesBookmarks, &["p"], "收藏", "收藏当前目录或当前选中的目录"),
        KeyBinding::new(HelpContext::Explorer, HelpCategory::NotesBookmarks, &["B"], "书签列表", "打开书签选择器"),
        KeyBinding::new(HelpContext::Explorer, HelpCategory::PreviewAction, &["o"], "外部打开", "用系统默认程序打开"),
        KeyBinding::new(HelpContext::Explorer, HelpCategory::SearchFilter, &["."], "隐藏文件", "切换隐藏文件显示"),
        KeyBinding::new(HelpContext::Explorer, HelpCategory::Advanced, &[":"], "命令行", "打开底部命令行"),
    ];
    assert(views(r@)[0].keys =~= bindings_part0_spec()[0].keys);
    assert(views(r@)[0] == bindings_part0_spec()[0]);
    assert(views(r@)[1].keys =~= bindings_part0_spec()[1].keys);
    assert(views(r@)[1] == bindings_part0_spec()[1]);
    assert(views(r@)[2].keys =~= bindings_part0_spec()[2].keys);
    assert(views(r@)[2] == bindings_part0_spec()[2]);
    assert(views(r@)[3].keys =~= bindings_part0_spec()[3].keys);
    assert(views(r@)[3] == bindings_part0_spec()[3]);
    assert(views(r@)[4].keys =~= bindings_part0_spec()[4].keys);
    assert(views(r@)[4] == bindings_part0_spec()[4]);
    assert(views(r@)[5].keys =~= bindings_part0_spec()[5].keys);
    assert(views(r@)[5] == bindings_part0_spec()[5]);
    assert(views(r@)[6].keys =~= bindings_part0_spec()[6].keys);
    assert(views(r@)[6] == bindings_part0_spec()[6]);
    assert(views(r@)[7].keys =~= bindings_part0_spec()[7].keys);
    assert(views(r@)[7] == bindings_part0_spec()[7]);
    assert(views(r@)[8].keys =~= bindings_part0_spec()[8].keys);
    assert(views(r@)[8] == bindings_part0_spec()[8]);
    assert(views(r@)[9].keys =~= bindings_part0_spec()[9].keys);
    assert(views(r@)[9] == bindings_part0_spec()[9]);
    assert(views(r@)[10].keys =~= bindings_part0_spec()[10].keys);
    assert(views(r@)[10] == bindings_part0_spec()[10]);
    assert(views(r@)[11].keys =~= bindings_part0_spec()[11].keys);
    assert(views(r@)[11] == bindings_part0_spec()[11]);
    assert(views(r@)[12].keys =~= bindings_part0_spec()[12].keys);
    assert(views(r@)[12] == bindings_part0_spec()[12]);
    assert(views(r@) =~= bindings_part0_spec());
    r
}

fn bindings_part1() -> (r: Vec<KeyBinding>)
    ensures
        views(r@) == bindings_part1_spec(),
{
    let r = vec![
        KeyBinding::primary(HelpContext::Explorer, HelpCategory::Advanced, &["?", "F1"], "帮助", "打开帮助覆盖层"),
        KeyBinding::primary(HelpContext::Explorer, HelpCategory::OpenClose, &["q"], "退出", "退出当前界面"),
        KeyBinding::primary(HelpContext::Preview, HelpCategory::Navigation, &["j", "k", "Down", "Up"], "滚动", "滚动预览区域"),
        KeyBinding::new(HelpContext::Preview, HelpCategory::Navigation, &["PageDown", "PageUp"], "翻页", "按页滚动预览"),
        KeyBinding::new(HelpContext::Preview, HelpCategory::Navigation, &["H", "L"], "横移", "左右横向滚动长行内容"),
        KeyBinding::new(HelpContext::Preview, HelpCategory::OpenClose, &["Enter"], "阅读", "打开全屏阅读视图"),
        KeyBinding::primary(HelpContext::Preview, HelpCategory::PreviewAction, &["n"], "行号", "切换代码行号显示"),
        KeyBinding::primary(HelpContext::Preview, HelpCategory::PreviewAction, &["o"], "外部打开", "用系统默认程序打开当前文件"),
        KeyBinding::primary(HelpContext::Preview, HelpCategory::LayoutFocus, &["Tab"], "切换焦点", "切到信息面板或返回列表"),
        KeyBinding::new(HelpContext::Preview, HelpCategory::LayoutFocus, &["h", "Left"], "返回列表", "把焦点切回文件列表"),
        KeyBinding::new(HelpContext::Preview, HelpCategory::SearchFilter, &["Esc"], "清除过滤", "清除当前已应用的搜索过滤"),
        KeyBinding::primary(HelpContext::Preview, HelpCategory::Advanced, &["?", "F1"], "帮助", "打开帮助覆盖层"),
        KeyBinding::primary(HelpContext::Preview, HelpCategory::OpenClose, &["q"], "退出", "退出当前界面"),
    ];
    assert(views(r@)[0].keys =~= bindings_part1_spec()[0].keys);
    assert(views(r@)[0] == bindings_part1_spec()[0]);
    assert(views(r@)[1].keys =~= bindings_part1_spec()[1].keys);
    assert(views(r@)[1] == bindings_part1_spec()[1]);
    assert(views(r@)[2].keys =~= bindings_part1_spec()[2].keys);
    assert(views(r@)[2] == bindings_part1_spec()[2]);
    assert(views(r@)[3].keys =~= bindings_part1_spec()[3].keys);
    assert(views(r@)[3] == bindings_part1_spec()[3]);
    assert(views(r@)[4].keys =~= bindings_part1_spec()[4].keys);
    assert(views(r@)[4] == bindings_part1_spec()[4]);
    assert(views(r@)[5].keys =~= bindings_part1_spec()[5].keys);
    assert(views(r@)[5] == bindings_part1_spec()[5]);
    assert(views(r@)[6].keys =~= bindings_part1_spec()[6].keys);
    assert(views(r@)[6] == bindings_part1_spec()[6]);
    assert(views(r@)[7].keys =~= bindings_part1_spec()[7].keys);
    assert(views(r@)[7] == bindings_part1_spec()[7]);
    assert(views(r@)[8].keys =~= bindings_part1_spec()[8].keys);
    assert(views(r@)[8] == bindings_part1_spec()[8]);
    assert(views(r@)[9].keys =~= bindings_part1_spec()[9].keys);
    assert(views(r@)[9] == bindings_part1_spec()[9]);
    assert(views(r@)[10].keys =~= bindings_part1_spec()[10].keys);
    assert(views(r@)[10] == bindings_part1_spec()[10]);
    assert(views(r@)[11].keys =~= bindings_part1_spec()[11].keys);
    assert(views(r@)[11] == bindings_part1_spec()[11]);
    assert(views(r@)[12].keys =~= bindings_part1_spec()[12].keys);
    assert(views(r@)[12] == bindings_part1_spec()[12]);
    assert(views(r@) =~= bindings_part1_spec());
    r
}

fn bindings_part2() -> (r: Vec<KeyBinding>)
    ensures
        views(r@) == bindings_part2_spec(),
{
    let r = vec![
        KeyBinding::new(HelpContext::Inspector, HelpCategory::Navigation, &["j", "k", "Down", "Up"], "滚动", "滚动当前信息面板"),
        KeyBinding::new(HelpContext::Inspector, HelpCategory::PreviewAction, &["n"], "行号", "切换代码行号显示"),
        KeyBinding::new(HelpContext::Inspector, HelpCategory::SearchFilter, &["Esc"], "清除过滤", "清除当前已应用的搜索过滤"),
        KeyBinding::new(HelpContext::Inspector, HelpCategory::OpenClose, &["Enter"], "阅读", "打开全屏阅读视图"),
        KeyBinding::primary(HelpContext::Reader, HelpCategory::Navigation, &["j", "k", "Down", "Up"], "滚动", "滚动全屏阅读视图"),
        KeyBinding::new(HelpContext::Reader, HelpCategory::Navigation, &["PageDown", "PageUp"], "翻页", "按页滚动阅读视图"),
        KeyBinding::new(HelpContext::Reader, HelpCategory::Navigation, &["Left", "Right", "H", "L"], "横移", "左右横向滚动长行内容"),
        KeyBinding::primary(HelpContext::Reader, HelpCategory::PreviewAction, &["n"], "行号", "切换代码行号显示"),
        KeyBinding::new(HelpContext::Reader, HelpCategory::PreviewAction, &["o"], "外部打开", "用系统默认程序打开当前文件"),
        KeyBinding::primary(HelpContext::Reader, HelpCategory::Advanced, &["?", "F1"], "帮助", "打开帮助覆盖层"),
        KeyBinding::primary(HelpContext::Reader, HelpCategory::OpenClose, &["Esc", "q"], "关闭", "关闭阅读视图"),
        KeyBinding::new(HelpContext::OverlayHelp, HelpCategory::OpenClose, &["Esc", "q", "?"], "关闭帮助", "关闭帮助覆盖层"),
        KeyBinding::new(HelpContext::OverlayHelp, HelpCategory::Navigation, &["Up", "Down", "PageDown", "PageUp"], "滚动", "滚动帮助内容"),
    ];
    assert(views(r@)[0].keys =~= bindings_part2_spec()[0].keys);
    assert(views(r@)[0] == bindings_part2_spec()[0]);
    assert(views(r@)[1].keys =~= bindings_part2_spec()[1].keys);
    assert(views(r@)[1] == bindings_part2_spec()[1]);
    assert(views(r@)[2].keys =~= bindings_part2_spec()[2].keys);
    assert(views(r@)[2] == bindings_part2_spec()[2]);
    assert(views(r@)[3].keys =~= bindings_part2_spec()[3].keys);
    assert(views(r@)[3] == bindings_part2_spec()[3]);
    assert(views(r@)[4].keys =~= bindings_part2_spec()[4].keys);
    assert(views(r@)[4] == bindings_part2_spec()[4]);
    assert(views(r@)[5].keys =~= bindings_part2_spec()[5].keys);
    assert(views(r@)[5] == bindings_part2_spec()[5]);
    assert(views(r@)[6].keys =~= bindings_part2_spec()[6].keys);
    assert(views(r@)[6] == bindings_part2_spec()[6]);
    assert(views(r@)[7].keys =~= bindings_part2_spec()[7].keys);
    assert(views(r@)[7] == bindings_part2_spec()[7]);
    assert(views(r@)[8].keys =~= bindings_part2_spec()[8].keys);
    assert(views(r@)[8] == bindings_part2_spec()[8]);
    assert(views(r@)[9].keys =~= bindings_part2_spec()[9].keys);
    assert(views(r@)[9] == bindings_part2_spec()[9]);
    assert(views(r@)[10].keys =~= bindings_part2_spec()[10].keys);
    assert(views(r@)[10] == bindings_part2_spec()[10]);
    assert(views(r@)[11].keys =~= bindings_part2_spec()[11].keys);
    assert(views(r@)[11] == bindings_part2_spec()[11]);
    assert(views(r@)[12].keys =~= bindings_part2_spec()[12].keys);
    assert(views(r@)[12] == bindings_part2_spec()[12]);
    assert(views(r@) =~= bindings_part2_spec());
    r
}

fn bindings_part3() -> (r: Vec<KeyBinding>)
    ensures
        views(r@) == bindings_part3_spec(),
{
    let r = vec![
        KeyBinding::new(HelpContext::OverlayHelp, HelpCategory::LayoutFocus, &["Left", "Right", "Tab", "Shift-Tab"], "切换分类", "切换当前帮助分类"),
        KeyBinding::new(HelpContext::OverlayHelp, HelpCategory::SearchFilter, &["直接输入", "Backspace"], "过滤", "按关键字过滤帮助项"),
        KeyBinding::primary(HelpContext::OverlayNoteEditor, HelpCategory::Editing, &["Enter"], "保存", "保存备注"),
        KeyBinding::primary(HelpContext::OverlayNoteEditor, HelpCategory::OpenClose, &["Esc"], "取消", "取消编辑并关闭备注层"),
        KeyBinding::primary(HelpContext::OverlayNoteEditor, HelpCategory::Editing, &["Ctrl-U"], "清空", "清空当前备注内容"),
        KeyBinding::primary(HelpContext::OverlayNoteEditor, HelpCategory::Advanced, &["?", "F1"], "帮助", "打开帮助覆盖层"),
        KeyBinding::primary(HelpContext::BookmarkPicker, HelpCategory::Navigation, &["j", "k", "Down", "Up"], "选择", "上下选择书签"),
        KeyBinding::primary(HelpContext::BookmarkPicker, HelpCategory::OpenClose, &["Enter"], "跳转", "打开选中的书签目录"),
        KeyBinding::primary(HelpContext::BookmarkPicker, HelpCategory::NotesBookmarks, &["d"], "删除", "删除当前书签"),
        KeyBinding::primary(HelpContext::BookmarkPicker, HelpCategory::OpenClose, &["Esc"], "关闭", "关闭书签选择器"),
        KeyBinding::primary(HelpContext::BookmarkPicker, HelpCategory::Advanced, &["?", "F1"], "帮助", "打开帮助覆盖层"),
        KeyBinding::new(HelpContext::OverlayConfirm, HelpCategory::OpenClose, &["Enter", "y"], "确认", "确认当前操作"),
        KeyBinding::new(HelpContext::OverlayConfirm, HelpCategory::OpenClose, &["Esc", "n"], "取消", "取消当前操作"),
    ];
    assert(views(r@)[0].keys =~= bindings_part3_spec()[0].keys);
    assert(views(r@)[0] == bindings_part3_spec()[0]);
    assert(views(r@)[1].keys =~= bindings_part3_spec()[1].keys);
    assert(views(r@)[1] == bindings_part3_spec()[1]);
    assert(views(r@)[2].keys =~= bindings_part3_spec()[2].keys);
    assert(views(r@)[2] == bindings_part3_spec()[2]);
    assert(views(r@)[3].keys =~= bindings_part3_spec()[3].keys);
    assert(views(r@)[3] == bindings_part3_spec()[3]);
    assert(views(r@)[4].keys =~= bindings_part3_spec()[4].keys);
    assert(views(r@)[4] == bindings_part3_spec()[4]);
    assert(views(r@)[5].keys =~= bindings_part3_spec()[5].keys);
    assert(views(r@)[5] == bindings_part3_spec()[5]);
    assert(views(r@)[6].keys =~= bindings_part3_spec()[6].keys);
    assert(views(r@)[6] == bindings_part3_spec()[6]);
    assert(views(r@)[7].keys =~= bindings_part3_spec()[7].keys);
    assert(views(r@)[7] == bindings_part3_spec()[7]);
    assert(views(r@)[8].keys =~= bindings_part3_spec()[8].keys);
    assert(views(r@)[8] == bindings_part3_spec()[8]);
    assert(views(r@)[9].keys =~= bindings_part3_spec()[9].keys);
    assert(views(r@)[9] == bindings_part3_spec()[9]);
    assert(views(r@)[10].keys =~= bindings_part3_spec()[10].keys);
    assert(views(r@)[10] == bindings_part3_spec()[10]);
    assert(views(r@)[11].keys =~= bindings_part3_spec()[11].keys);
    assert(views(r@)[11] == bindings_part3_spec()[11]);
    assert(views(r@)[12].keys =~= bindings_part3_spec()[12].keys);
    assert(views(r@)[12] == bindings_part3_spec()[12]);
    assert(views(r@) =~= bindings_part3_spec());
    r
}

fn bindings_part4() -> (r: Vec<KeyBinding>)
    ensures
        views(r@) == bindings_part4_spec(),
{
    let r = vec![
        KeyBinding::new(HelpContext::OverlayConfirm, HelpCategory::Advanced, &["?", "F1"], "帮助", "打开帮助覆盖层"),
        KeyBinding::new(HelpContext::CommandLine, HelpCategory::Advanced, &[":help"], "帮助", "显示帮助页"),
        KeyBinding::new(HelpContext::CommandLine, HelpCategory::NotesBookmarks, &[":bookmark add [name]"], "添加书签", "保存当前目录书签"),
        KeyBinding::new(HelpContext::CommandLine, HelpCategory::NotesBookmarks, &[":bookmark jump NAME"], "跳转书签", "跳转到命名书签"),
        KeyBinding::new(HelpContext::CommandLine, HelpCategory::NotesBookmarks, &[":bookmark list"], "书签列表", "打开书签选择器"),
        KeyBinding::new(HelpContext::CommandLine, HelpCategory::NotesBookmarks, &[":note edit"], "编辑备注", "打开备注编辑层"),
        KeyBinding::new(HelpContext::CommandLine, HelpCategory::NotesBookmarks, &[":note clear"], "清空备注", "删除当前项备注"),
        KeyBinding::new(HelpContext::CommandLine, HelpCategory::SearchFilter, &[":sort name"], "名称排序", "按名称排序"),
        KeyBinding::new(HelpContext::CommandLine, HelpCategory::SearchFilter, &[":sort mtime"], "时间排序", "按修改时间排序"),
        KeyBinding::new(HelpContext::CommandLine, HelpCategory::SearchFilter, &[":toggle hidden"], "隐藏文件", "切换隐藏文件显示"),
        KeyBinding::new(HelpContext::CommandLine, HelpCategory::PreviewAction, &[":inspect"], "阅读视图", "打开当前项全屏阅读"),
        KeyBinding::new(HelpContext::CommandLine, HelpCategory::PreviewAction, &[":toggle numbers"], "切换行号", "切换代码行号显示"),
        KeyBinding::new(HelpContext::CommandLine, HelpCategory::PreviewAction, &[":open external"], "外部打开", "使用系统默认程序打开"),
        KeyBinding::new(HelpContext::CommandLine, HelpCategory::OpenClose, &[":quit"], "退出", "退出当前界面"),
    ];
    assert(views(r@)[0].keys =~= bindings_part4_spec()[0].keys);
    assert(views(r@)[0] == bindings_part4_spec()[0]);
    assert(views(r@)[1].keys =~= bindings_part4_spec()[1].keys);
    assert(views(r@)[1] == bindings_part4_spec()[1]);
    assert(views(r@)[2].keys =~= bindings_part4_spec()[2].keys);
    assert(views(r@)[2] == bindings_part4_spec()[2]);
    assert(views(r@)[3].keys =~= bindings_part4_spec()[3].keys);
    assert(views(r@)[3] == bindings_part4_spec()[3]);
    assert(views(r@)[4].keys =~= bindings_part4_spec()[4].keys);
    assert(views(r@)[4] == bindings_part4_spec()[4]);
    assert(views(r@)[5].keys =~= bindings_part4_spec()[5].keys);
    assert(views(r@)[5] == bindings_part4_spec()[5]);
    assert(views(r@)[6].keys =~= bindings_part4_spec()[6].keys);
    assert(views(r@)[6] == bindings_part4_spec()[6]);
    assert(views(r@)[7].keys =~= bindings_part4_spec()[7].keys);
    assert(views(r@)[7] == bindings_part4_spec()[7]);
    assert(views(r@)[8].keys =~= bindings_part4_spec()[8].keys);
    assert(views(r@)[8] == bindings_part4_spec()[8]);
    assert(views(r@)[9].keys =~= bindings_part4_spec()[9].keys);
    assert(views(r@)[9] == bindings_part4_spec()[9]);
    assert(views(r@)[10].keys =~= bindings_part4_spec()[10].keys);
    assert(views(r@)[10] == bindings_part4_spec()[10]);
    assert(views(r@)[11].keys =~= bindings_part4_spec()[11].keys);
    assert(views(r@)[11] == bindings_part4_spec()[11]);
    assert(views(r@)[12].keys =~= bindings_part4_spec()[12].keys);
    assert(views(r@)[12] == bindings_part4_spec()[12]);
    assert(views(r@)[13].keys =~= bindings_part4_spec()[13].keys);
    assert(views(r@)[13] == bindings_part4_spec()[13]);
    assert(views(r@) =~= bindings_part4_spec());
    r
}

/// Appends `other` to `v`.
fn append_bindings(v: &mut Vec<KeyBinding>, other: Vec<KeyBinding>)
    ensures
        views(final(v)@) == views(old(v)@) + views(other@),
{
    let ghost o = other@;
    let mut other = other;
    v.append(&mut other);
    assert(views(v@) =~= views(old(v)@) + views(o));
}

/// Every documented key binding, in documentation order.
pub fn default_key_bindings() -> (r: Vec<KeyBinding>)
    ensures
        views(r@) == default_bindings_spec(),
{
    let mut r = bindings_part0();
    append_bindings(&mut r, bindings_part1());
    append_bindings(&mut r, bindings_part2());
    append_bindings(&mut r, bindings_part3());
    append_bindings(&mut r, bindings_part4());
    r
}

pub open spec fn context_label_spec(context: HelpContext) -> Seq<char> {
    match context {
        HelpContext::Explorer => "浏览"@,
        HelpContext::Preview => "预览"@,
        HelpContext::Inspector => "信息"@,
        HelpContext::Reader => "阅读"@,
        HelpContext::OverlayHelp => "帮助"@,
        HelpContext::OverlayNoteEditor => "备注编辑"@,
        HelpContext::OverlayConfirm => "确认"@,
        HelpContext::CommandLine => "命令"@,
        HelpContext::BookmarkPicker => "书签"@,
    }
}

pub fn context_label(context: HelpContext) -> (r: &'static str)
    ensures
        r@ == context_label_spec(context),
{
    match context {
        HelpContext::Explorer => "浏览",
        HelpContext::Preview => "预览",
        HelpContext::Inspector => "信息",
        HelpContext::Reader => "阅读",
        HelpContext::OverlayHelp => "帮助",
        HelpContext::OverlayNoteEditor => "备注编辑",
        HelpContext::OverlayConfirm => "确认",
        HelpContext::CommandLine => "命令",
        HelpContext::BookmarkPicker => "书签",
    }
}

pub open spec fn category_label_spec(category: HelpCategory) -> Seq<char> {
    match category {
        HelpCategory::Navigation => "基础导航"@,
        HelpCategory::OpenClose => "打开与返回"@,
        HelpCategory::SearchFilter => "搜索与筛选"@,
        HelpCategory::NotesBookmarks => "备注与书签"@,
        HelpCategory::PreviewAction => "预览与动作"@,
        HelpCategory::LayoutFocus => "布局与焦点"@,
        HelpCategory::Editing => "编辑"@,
        HelpCategory::Advanced => "高级动作"@,
    }
}

pub fn category_label(category: HelpCategory) -> (r: &'static str)
    ensures
        r@ == category_label_spec(category),
{
    match category {
        HelpCategory::Navigation => "基础导航",
        HelpCategory::OpenClose => "打开与返回",
        HelpCategory::SearchFilter => "搜索与筛选",
        HelpCategory::NotesBookmarks => "备注与书签",
        HelpCategory::PreviewAction => "预览与动作",
        HelpCategory::LayoutFocus => "布局与焦点",
        HelpCategory::Editing => "编辑",
        HelpCategory::Advanced => "高级动作",
    }
}

/// The help-page line of one binding:
/// `[context / category] keys(padded to 20) label(padded to 12) detail`.
pub open spec fn help_line(b: KeyBindingView) -> Seq<char> {
    "["@ + context_label_spec(b.context) + " / "@ + category_label_spec(b.category) + "] "@
        + pad_right(join(b.keys, ", "@), 20) + " "@ + pad_right(b.label, 12) + " "@ + b.detail
}

/// The header lines followed by one line per binding.
pub open spec fn help_keys_lines_spec(bindings: Seq<KeyBindingView>) -> Seq<Seq<char>> {
    seq!["lsz -l 快捷键帮助"@, Seq::<char>::empty()] + bindings.map_values(|b: KeyBindingView| help_line(b))
}

fn help_line_of(binding: &KeyBinding) -> (r: String)
    ensures
        r@ == help_line(binding@),
{
    let mut line = String::from_str("[");
    append_str(&mut line, context_label(binding.context));
    append_str(&mut line, " / ");
    append_str(&mut line, category_label(binding.category));
    append_str(&mut line, "] ");
    let keys = join_strings(&binding.keys, ", ");
    let keys = padded(keys.as_str(), 20);
    append_str(&mut line, keys.as_str());
    append_str(&mut line, " ");
    let label = padded(binding.label.as_str(), 12);
    append_str(&mut line, label.as_str());
    append_str(&mut line, " ");
    append_str(&mut line, binding.detail.as_str());
    line
}

/// The plain-text help page listing every binding.
pub fn render_help_keys_lines() -> (r: Vec<String>)
    ensures
        views(r@) == help_keys_lines_spec(default_bindings_spec()),
{
    let bindings = default_key_bindings();
    let mut lines: Vec<String> = vec![String::from_str("lsz -l 快捷键帮助"), String::new()];
    let mut i: usize = 0;
    while i < bindings.len()
        invariant
            i <= bindings.len(),
            views(bindings@) == default_bindings_spec(),
            views(lines@) == help_keys_lines_spec(views(bindings@.take(i as int))),
        decreases bindings.len() - i,
    {
        let line = help_line_of(&bindings[i]);
        let ghost before = lines@;
        lines.push(line);
        assert(views(lines@) =~= views(before).push(line@));
        assert(views(bindings@.take(i + 1)) =~= views(bindings@.take(i as int)).push(bindings@[i as int]@));
        assert(help_keys_lines_spec(views(bindings@.take(i + 1))) =~= help_keys_lines_spec(
            views(bindings@.take(i as int)),
        ).push(help_line(bindings@[i as int]@)));
        i = i + 1;
    }
    assert(bindings@.take(bindings.len() as int) =~= bindings@);
    lines
}

/// The help page has two header lines and one line per documented binding.
pub proof fn help_page_covers_every_binding()
    ensures
        help_keys_lines_spec(default_bindings_spec()).len() == default_bindings_spec().len() + 2,
        forall|i: int|
            0 <= i < default_bindings_spec().len() ==> #[trigger] help_keys_lines_spec(
                default_bindings_spec(),
            )[i + 2] == help_line(default_bindings_spec()[i]),
{
}

} // verus!
