//! The command-line help page.
use vstd::prelude::*;
use crate::text::{append_str, views};

verus! {

/// `text` wrapped in an SGR color sequence when color is on.
pub open spec fn painted(color: bool, code: Seq<char>, text: Seq<char>) -> Seq<char> {
    if color {
        seq!['\x1b', '['] + code + seq!['m'] + text + seq!['\x1b', '[', '0', 'm']
    } else {
        text
    }
}

fn paint_into(s: &mut String, color: bool, code: &str, text: &str)
    ensures
        final(s)@ == old(s)@ + painted(color, code@, text@),
{
    let ghost s0 = s@;
    if color {
        crate::text::push_char(s, '\x1b');
        crate::text::push_char(s, '[');
        append_str(s, code);
        crate::text::push_char(s, 'm');
        append_str(s, text);
        crate::text::push_char(s, '\x1b');
        crate::text::push_char(s, '[');
        crate::text::push_char(s, '0');
        crate::text::push_char(s, 'm');
    } else {
        append_str(s, text);
    }
    assert(s@ =~= s0 + painted(color, code@, text@));
}

/// The lines of the help page, with colors when `color` is on.
pub open spec fn help_page_body(color: bool) -> Seq<Seq<char>> {
    seq![
        painted(color, "1;36"@, "lsz"@),
        Seq::<char>::empty(),
        painted(color, "2"@, "围绕注释、收藏和快速了解 path / 目录内容设计的终端工具。"@),
        Seq::<char>::empty(),
        painted(color, "1;33"@, "常用入口"@),
        "  "@ + painted(color, "32"@, "lsz [path]"@) + "       轻量列表，顺手看备注和摘要"@,
        "  "@ + painted(color, "32"@, "lsz --plain [path]"@) + "  纯文本列表，适合 grep / fzf / 重定向"@,
        "  "@ + painted(color, "32"@, "lsz -i [path]"@) + "    项目卡片 / 说明文档预览"@,
        "  "@ + painted(color, "32"@, "lsz -l [path]"@) + "    TUI 浏览、搜索、阅读"@,
        "  "@ + painted(color, "32"@, "lsz --help-keys"@) + "  TUI 全量快捷键"@,
        Seq::<char>::empty(),
        painted(color, "1;33"@, "备注与书签"@),
        "  "@ + painted(color, "32"@, "lsz -s <内容> <path>"@) + "  添加备注"@,
        "  "@ + painted(color, "32"@, "lsz -d <path>"@) + "       删除备注"@,
        "  "@ + painted(color, "32"@, "lsz -gc"@) + "           清理失效备注"@,
        "  "@ + painted(color, "32"@, "lsz -b add <name> [path]"@) + "  添加书签"@,
        "  "@ + painted(color, "32"@, "lsz -b <name>"@) + "            输出书签 path"@,
        "  "@ + painted(color, "32"@, "lsz -b list"@) + "          查看书签列表"@,
        "  "@ + painted(color, "32"@, "lsz -b del <name>"@) + "     删除书签"@,
        Seq::<char>::empty(),
        painted(color, "1;33"@, "TUI 常用"@),
        "  "@ + painted(color, "32"@, "? / F1"@) + " 帮助    "@ + painted(color, "32"@, "/"@) + " 搜索    "@ + painted(color, "32"@, ":"@) + " 命令    "@ + painted(color, "32"@, "Enter"@) + " 阅读"@,
        "  "@ + painted(color, "32"@, "n"@) + " 切换行号    "@ + painted(color, "32"@, "o"@) + " 外部打开"@,
        Seq::<char>::empty(),
        painted(color, "1;33"@, "TUI 里按 : 可用"@),
        "  "@ + painted(color, "32"@, "help"@) + "           打开帮助"@,
        "  "@ + painted(color, "32"@, "sort name"@) + " 或 "@ + painted(color, "32"@, "sort mtime"@) + "   按名称 / 修改时间排序"@,
        "  "@ + painted(color, "32"@, "bookmark add [name]"@) + "  保存当前目录为书签"@,
        "  "@ + painted(color, "32"@, "bookmark jump <name>"@) + "   跳到已有书签"@,
        "  "@ + painted(color, "32"@, "note edit"@) + " 或 "@ + painted(color, "32"@, "note clear"@) + "  编辑 / 清空当前项备注"@,
        "  "@ + painted(color, "32"@, "inspect"@) + " 或 "@ + painted(color, "32"@, "open external"@) + "  打开阅读器 / 交给系统打开"@,
        Seq::<char>::empty(),
        painted(color, "1;33"@, "示例"@),
        "  "@ + painted(color, "32"@, "lsz"@),
        "  "@ + painted(color, "32"@, "lsz -i ."@),
        "  "@ + painted(color, "32"@, "lsz -l ."@),
    ]
}

/// The help page, with where the data is stored when that is known.
pub open spec fn help_page_spec(color: bool, db_path: Option<Seq<char>>) -> Seq<Seq<char>> {
    help_page_body(color) + match db_path {
        Some(p) => seq![Seq::<char>::empty(), painted(color, "2"@, "数据存储位置："@ + p)],
        None => Seq::empty(),
    }
}

#[verifier::rlimit(50)]
fn help_page_body_lines(color: bool) -> (lines: Vec<String>)
    ensures
        views(lines@) == help_page_body(color),
{
    let mut lines: Vec<String> = Vec::new();
    {
        let mut l = String::new();
        paint_into(&mut l, color, "1;36", "lsz");
        lines.push(l);
    }
    {
        let mut l = String::new();
        lines.push(l);
    }
    {
        let mut l = String::new();
        paint_into(&mut l, color, "2", "围绕注释、收藏和快速了解 path / 目录内容设计的终端工具。");
        lines.push(l);
    }
    {
        let mut l = String::new();
        lines.push(l);
    }
    {
        let mut l = String::new();
        paint_into(&mut l, color, "1;33", "常用入口");
        lines.push(l);
    }
    {
        let mut l = String::new();
        append_str(&mut l, "  ");
        paint_into(&mut l, color, "32", "lsz [path]");
        append_str(&mut l, "       轻量列表，顺手看备注和摘要");
        lines.push(l);
    }
    {
        let mut l = String::new();
        append_str(&mut l, "  ");
        paint_into(&mut l, color, "32", "lsz --plain [path]");
        append_str(&mut l, "  纯文本列表，适合 grep / fzf / 重定向");
        lines.push(l);
    }
    {
        let mut l = String::new();
        append_str(&mut l, "  ");
        paint_into(&mut l, color, "32", "lsz -i [path]");
        append_str(&mut l, "    项目卡片 / 说明文档预览");
        lines.push(l);
    }
    {
        let mut l = String::new();
        append_str(&mut l, "  ");
        paint_into(&mut l, color, "32", "lsz -l [path]");
        append_str(&mut l, "    TUI 浏览、搜索、阅读");
        lines.push(l);
    }
    {
        let mut l = String::new();
        append_str(&mut l, "  ");
        paint_into(&mut l, color, "32", "lsz --help-keys");
        append_str(&mut l, "  TUI 全量快捷键");
        lines.push(l);
    }
    {
        let mut l = String::new();
        lines.push(l);
    }
    {
        let mut l = String::new();
        paint_into(&mut l, color, "1;33", "备注与书签");
        lines.push(l);
    }
    {
        let mut l = String::new();
        append_str(&mut l, "  ");
        paint_into(&mut l, color, "32", "lsz -s <内容> <path>");
        append_str(&mut l, "  添加备注");
        lines.push(l);
    }
    {
        let mut l = String::new();
        append_str(&mut l, "  ");
        paint_into(&mut l, color, "32", "lsz -d <path>");
        append_str(&mut l, "       删除备注");
        lines.push(l);
    }
    {
        let mut l = String::new();
        append_str(&mut l, "  ");
        paint_into(&mut l, color, "32", "lsz -gc");
        append_str(&mut l, "           清理失效备注");
        lines.push(l);
    }
    {
        let mut l = String::new();
        append_str(&mut l, "  ");
        paint_into(&mut l, color, "32", "lsz -b add <name> [path]");
        append_str(&mut l, "  添加书签");
        lines.push(l);
    }
    {
        let mut l = String::new();
        append_str(&mut l, "  ");
        paint_into(&mut l, color, "32", "lsz -b <name>");
        append_str(&mut l, "            输出书签 path");
        lines.push(l);
    }
    {
        let mut l = String::new();
        append_str(&mut l, "  ");
        paint_into(&mut l, color, "32", "lsz -b list");
        append_str(&mut l, "          查看书签列表");
        lines.push(l);
    }
    {
        let mut l = String::new();
        append_str(&mut l, "  ");
        paint_into(&mut l, color, "32", "lsz -b del <name>");
        append_str(&mut l, "     删除书签");
        lines.push(l);
    }
    {
        let mut l = String::new();
        lines.push(l);
    }
    {
        let mut l = String::new();
        paint_into(&mut l, color, "1;33", "TUI 常用");
        lines.push(l);
    }
    {
        let mut l = String::new();
        append_str(&mut l, "  ");
        paint_into(&mut l, color, "32", "? / F1");
        append_str(&mut l, " 帮助    ");
        paint_into(&mut l, color, "32", "/");
        append_str(&mut l, " 搜索    ");
        paint_into(&mut l, color, "32", ":");
        append_str(&mut l, " 命令    ");
        paint_into(&mut l, color, "32", "Enter");
        append_str(&mut l, " 阅读");
        lines.push(l);
    }
    {
        let mut l = String::new();
        append_str(&mut l, "  ");
        paint_into(&mut l, color, "32", "n");
        append_str(&mut l, " 切换行号    ");
        paint_into(&mut l, color, "32", "o");
        append_str(&mut l, " 外部打开");
        lines.push(l);
    }
    {
        let mut l = String::new();
        lines.push(l);
    }
    {
        let mut l = String::new();
        paint_into(&mut l, color, "1;33", "TUI 里按 : 可用");
        lines.push(l);
    }
    {
        let mut l = String::new();
        append_str(&mut l, "  ");
        paint_into(&mut l, color, "32", "help");
        append_str(&mut l, "           打开帮助");
        lines.push(l);
    }
    {
        let mut l = String::new();
        append_str(&mut l, "  ");
        paint_into(&mut l, color, "32", "sort name");
        append_str(&mut l, " 或 ");
        paint_into(&mut l, color, "32", "sort mtime");
        append_str(&mut l, "   按名称 / 修改时间排序");
        lines.push(l);
    }
    {
        let mut l = String::new();
        append_str(&mut l, "  ");
        paint_into(&mut l, color, "32", "bookmark add [name]");
        append_str(&mut l, "  保存当前目录为书签");
        lines.push(l);
    }
    {
        let mut l = String::new();
        append_str(&mut l, "  ");
        paint_into(&mut l, color, "32", "bookmark jump <name>");
        append_str(&mut l, "   跳到已有书签");
        lines.push(l);
    }
    {
        let mut l = String::new();
        append_str(&mut l, "  ");
        paint_into(&mut l, color, "32", "note edit");
        append_str(&mut l, " 或 ");
        paint_into(&mut l, color, "32", "note clear");
        append_str(&mut l, "  编辑 / 清空当前项备注");
        lines.push(l);
    }
    {
        let mut l = String::new();
        append_str(&mut l, "  ");
        paint_into(&mut l, color, "32", "inspect");
        append_str(&mut l, " 或 ");
        paint_into(&mut l, color, "32", "open external");
        append_str(&mut l, "  打开阅读器 / 交给系统打开");
        lines.push(l);
    }
    {
        let mut l = String::new();
        lines.push(l);
    }
    {
        let mut l = String::new();
        paint_into(&mut l, color, "1;33", "示例");
        lines.push(l);
    }
    {
        let mut l = String::new();
        append_str(&mut l, "  ");
        paint_into(&mut l, color, "32", "lsz");
        lines.push(l);
    }
    {
        let mut l = String::new();
        append_str(&mut l, "  ");
        paint_into(&mut l, color, "32", "lsz -i .");
        lines.push(l);
    }
    {
        let mut l = String::new();
        append_str(&mut l, "  ");
        paint_into(&mut l, color, "32", "lsz -l .");
        lines.push(l);
    }
    assert(views(lines@) =~= help_page_body(color));
    lines
}

/// The lines of the help page.
pub fn help_page_lines(color: bool, db_path: Option<&str>) -> (r: Vec<String>)
    ensures
        views(r@) == help_page_spec(color, match db_path { Some(p) => Some(p@), None => None }),
{
    let mut lines = help_page_body_lines(color);
    let ghost body = views(lines@);
    match db_path {
        Some(p) => {
            lines.push(String::new());
            let mut t = String::from_str("数据存储位置：");
            append_str(&mut t, p);
            let mut l = String::new();
            paint_into(&mut l, color, "2", t.as_str());
            lines.push(l);
            assert(views(lines@) =~= body + seq![Seq::<char>::empty(), painted(color, "2"@, "数据存储位置："@ + p@)]);
        },
        None => {
            assert(views(lines@) =~= body + Seq::<Seq<char>>::empty());
        },
    }
    lines
}

} // verus!
