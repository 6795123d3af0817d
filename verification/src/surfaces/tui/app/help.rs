//! The help overlay: categories, footer hints, filtering and pinyin search aliases.
use vstd::prelude::*;
use crate::config::keymap::{category_label, context_label, category_label_spec, context_label_spec};
use crate::domain::keymap::{
    binding_view, category_index, category_rank, HelpCategory, HelpContext, KeyBinding,
    KeyBindingView,
};
use crate::sorting::{SortKey, SortKeyView, stable_order, stably_ordered};
use crate::surfaces::tui::app::state::{
    AppState, AppStateView, FocusPane, InputMode, OverlayState, OverlayView, help_context_spec,
};
use crate::text::{
    append_str, chars_of, chars_contain, contains_seq, join, join_strings, lowercase_of_char,
    char_lowercase, is_whitespace, unicode_whitespace, str_contains, str_lowercase, to_lowercase,
    trim, trim_ws, views, Duplicate,
};

verus! {

/// Every help category, in declared order.
pub open spec fn all_categories() -> Seq<HelpCategory> {
    seq![
        HelpCategory::Navigation,
        HelpCategory::OpenClose,
        HelpCategory::SearchFilter,
        HelpCategory::NotesBookmarks,
        HelpCategory::PreviewAction,
        HelpCategory::LayoutFocus,
        HelpCategory::Editing,
        HelpCategory::Advanced,
    ]
}

fn category_at(i: usize) -> (c: HelpCategory)
    requires
        i < 8,
    ensures
        c == all_categories()[i as int],
{
    match i {
        0 => HelpCategory::Navigation,
        1 => HelpCategory::OpenClose,
        2 => HelpCategory::SearchFilter,
        3 => HelpCategory::NotesBookmarks,
        4 => HelpCategory::PreviewAction,
        5 => HelpCategory::LayoutFocus,
        6 => HelpCategory::Editing,
        _ => HelpCategory::Advanced,
    }
}

/// Whether some binding of `context` belongs to `category`.
pub open spec fn has_category(bs: Seq<KeyBindingView>, context: HelpContext, category: HelpCategory) -> bool {
    exists|i: int| 0 <= i < bs.len() && bs[i].context == context && bs[i].category == category
}

pub open spec fn categories_upto(bs: Seq<KeyBindingView>, context: HelpContext, n: nat) -> Seq<HelpCategory>
    decreases n,
{
    if n == 0 {
        Seq::empty()
    } else {
        let before = categories_upto(bs, context, (n - 1) as nat);
        if has_category(bs, context, all_categories()[n - 1]) {
            before.push(all_categories()[n - 1])
        } else {
            before
        }
    }
}

/// The categories used by the bindings of `context`, in declared order, each once;
/// `Advanced` alone when there is none.
pub open spec fn help_categories_spec(bs: Seq<KeyBindingView>, context: HelpContext) -> Seq<HelpCategory> {
    let found = categories_upto(bs, context, 8);
    if found.len() == 0 {
        seq![HelpCategory::Advanced]
    } else {
        found
    }
}

/// The primary bindings among the first `n`, of `context`, in order.
pub open spec fn primaries_upto(bs: Seq<KeyBindingView>, context: HelpContext, n: nat) -> Seq<KeyBindingView>
    decreases n,
{
    if n == 0 {
        Seq::empty()
    } else {
        let before = primaries_upto(bs, context, (n - 1) as nat);
        if bs[n - 1].primary && bs[n - 1].context == context {
            before.push(bs[n - 1])
        } else {
            before
        }
    }
}

/// The footer hints: a "clear filter" hint while a filter is applied in normal mode,
/// then the primary bindings of the current context, at most six in all.
pub open spec fn footer_spec(s: AppStateView) -> Seq<KeyBindingView> {
    let context = help_context_spec(s);
    let esc = if s.input_mode == InputMode::Normal && s.search_input.len() > 0 {
        seq![binding_view(context, HelpCategory::SearchFilter, seq!["Esc"], "清滤", "清除当前过滤", true)]
    } else {
        Seq::empty()
    };
    let all = esc + primaries_upto(s.key_bindings, context, s.key_bindings.len());
    if all.len() > 6 {
        all.take(6)
    } else {
        all
    }
}

/// ASCII letters and digits.
pub open spec fn ascii_alphanumeric(c: char) -> bool {
    ('0' <= c && c <= '9') || ('A' <= c && c <= 'Z') || ('a' <= c && c <= 'z')
}

/// ASCII punctuation: the printable ASCII characters that are neither letters, digits nor space.
pub open spec fn ascii_punctuation(c: char) -> bool {
    ('!' <= c && c <= '/') || (':' <= c && c <= '@') || ('[' <= c && c <= '`') || ('{' <= c && c <= '~')
}

/// Whether a character survives query normalization.
pub open spec fn kept_in_query(c: char) -> bool {
    ascii_alphanumeric(c) || (!ascii_punctuation(c) && !unicode_whitespace(c))
}

pub open spec fn keep_chars(s: Seq<char>) -> Seq<char>
    decreases s.len(),
{
    if s.len() == 0 {
        Seq::empty()
    } else if kept_in_query(s.last()) {
        keep_chars(s.drop_last()).push(s.last())
    } else {
        keep_chars(s.drop_last())
    }
}

/// A help query reduced to lower-case letters, digits and other non-space, non-punctuation characters.
pub open spec fn normalize_query(s: Seq<char>) -> Seq<char>
    decreases s.len(),
{
    if s.len() == 0 {
        Seq::empty()
    } else {
        normalize_query(s.drop_last()) + keep_chars(char_lowercase(s.last()))
    }
}

/// Whether `needle` occurs in `hay` as a (not necessarily contiguous) subsequence.
pub open spec fn is_subsequence(needle: Seq<char>, hay: Seq<char>) -> bool
    decreases hay.len(),
{
    if needle.len() == 0 {
        true
    } else if hay.len() == 0 {
        false
    } else if hay[0] == needle[0] {
        is_subsequence(needle.drop_first(), hay.drop_first())
    } else {
        is_subsequence(needle, hay.drop_first())
    }
}

/// The pinyin aliases of the Chinese words of the help texts: (word, full pinyin, initials).
pub open spec fn alias_table() -> Seq<(Seq<char>, Seq<char>, Seq<char>)> {
    seq![
        ("浏览"@, "liulan"@, "ll"@),
        ("预览"@, "yulan"@, "yl"@),
        ("信息"@, "xinxi"@, "xx"@),
        ("阅读"@, "yuedu"@, "yd"@),
        ("帮助"@, "bangzhu"@, "bz"@),
        ("备注"@, "beizhu"@, "bz"@),
        ("书签"@, "shuqian"@, "sq"@),
        ("收藏"@, "shoucang"@, "sc"@),
        ("列表"@, "liebiao"@, "lb"@),
        ("搜索"@, "sousuo"@, "ss"@),
        ("筛选"@, "shaixuan"@, "sx"@),
        ("过滤"@, "guolv"@, "gl"@),
        ("关键字"@, "guanjianzi"@, "gjz"@),
        ("打开"@, "dakai"@, "dk"@),
        ("关闭"@, "guanbi"@, "gb"@),
        ("返回"@, "fanhui"@, "fh"@),
        ("滚动"@, "gundong"@, "gd"@),
        ("翻页"@, "fanye"@, "fy"@),
        ("横移"@, "hengyi"@, "hy"@),
        ("切换"@, "qiehuan"@, "qh"@),
        ("焦点"@, "jiaodian"@, "jd"@),
        ("命令"@, "mingling"@, "ml"@),
        ("排序"@, "paixu"@, "px"@),
        ("时间"@, "shijian"@, "sj"@),
        ("名称"@, "mingcheng"@, "mc"@),
        ("删除"@, "shanchu"@, "sc"@),
        ("确认"@, "queren"@, "qr"@),
        ("取消"@, "quxiao"@, "qx"@),
        ("外部打开"@, "waibudakai"@, "wbdk"@),
        ("行号"@, "hanghao"@, "hh"@),
        ("隐藏文件"@, "yincangwenjian"@, "ycwj"@),
        ("目录"@, "mulu"@, "ml"@),
        ("文件"@, "wenjian"@, "wj"@),
        ("编辑"@, "bianji"@, "bj"@),
        ("跳转"@, "tiaozhuan"@, "tz"@),
        ("选择"@, "xuanze"@, "xz"@),
        ("高级动作"@, "gaojidongzuo"@, "gjdz"@),
        ("基础导航"@, "jichudaohang"@, "jcdh"@),
        ("搜索与筛选"@, "sousuoyushaixuan"@, "ssysx"@),
        ("备注与书签"@, "beizhuyushuqian"@, "bzysq"@),
        ("布局与焦点"@, "bujuyujiaodian"@, "bjyjd"@),
        ("预览与动作"@, "yulanyudongzuo"@, "ylydz"@),
    ]
}

fn alias_entry(i: usize) -> (r: (&'static str, &'static str, &'static str))
    requires
        i < 42,
    ensures
        r.0@ == alias_table()[i as int].0,
        r.1@ == alias_table()[i as int].1,
        r.2@ == alias_table()[i as int].2,
{
    let r = match i {
        0 => ("浏览", "liulan", "ll"),
        1 => ("预览", "yulan", "yl"),
        2 => ("信息", "xinxi", "xx"),
        3 => ("阅读", "yuedu", "yd"),
        4 => ("帮助", "bangzhu", "bz"),
        5 => ("备注", "beizhu", "bz"),
        6 => ("书签", "shuqian", "sq"),
        7 => ("收藏", "shoucang", "sc"),
        8 => ("列表", "liebiao", "lb"),
        9 => ("搜索", "sousuo", "ss"),
        10 => ("筛选", "shaixuan", "sx"),
        11 => ("过滤", "guolv", "gl"),
        12 => ("关键字", "guanjianzi", "gjz"),
        13 => ("打开", "dakai", "dk"),
        14 => ("关闭", "guanbi", "gb"),
        15 => ("返回", "fanhui", "fh"),
        16 => ("滚动", "gundong", "gd"),
        17 => ("翻页", "fanye", "fy"),
        18 => ("横移", "hengyi", "hy"),
        19 => ("切换", "qiehuan", "qh"),
        20 => ("焦点", "jiaodian", "jd"),
        21 => ("命令", "mingling", "ml"),
        22 => ("排序", "paixu", "px"),
        23 => ("时间", "shijian", "sj"),
        24 => ("名称", "mingcheng", "mc"),
        25 => ("删除", "shanchu", "sc"),
        26 => ("确认", "queren", "qr"),
        27 => ("取消", "quxiao", "qx"),
        28 => ("外部打开", "waibudakai", "wbdk"),
        29 => ("行号", "hanghao", "hh"),
        30 => ("隐藏文件", "yincangwenjian", "ycwj"),
        31 => ("目录", "mulu", "ml"),
        32 => ("文件", "wenjian", "wj"),
        33 => ("编辑", "bianji", "bj"),
        34 => ("跳转", "tiaozhuan", "tz"),
        35 => ("选择", "xuanze", "xz"),
        36 => ("高级动作", "gaojidongzuo", "gjdz"),
        37 => ("基础导航", "jichudaohang", "jcdh"),
        38 => ("搜索与筛选", "sousuoyushaixuan", "ssysx"),
        39 => ("备注与书签", "beizhuyushuqian", "bzysq"),
        40 => ("布局与焦点", "bujuyujiaodian", "bjyjd"),
        _ => ("预览与动作", "yulanyudongzuo", "ylydz"),
    };
    match i {
        0 => assert(r.0@ == alias_table()[0].0 && r.1@ == alias_table()[0].1 && r.2@ == alias_table()[0].2),
        1 => assert(r.0@ == alias_table()[1].0 && r.1@ == alias_table()[1].1 && r.2@ == alias_table()[1].2),
        2 => assert(r.0@ == alias_table()[2].0 && r.1@ == alias_table()[2].1 && r.2@ == alias_table()[2].2),
        3 => assert(r.0@ == alias_table()[3].0 && r.1@ == alias_table()[3].1 && r.2@ == alias_table()[3].2),
        4 => assert(r.0@ == alias_table()[4].0 && r.1@ == alias_table()[4].1 && r.2@ == alias_table()[4].2),
        5 => assert(r.0@ == alias_table()[5].0 && r.1@ == alias_table()[5].1 && r.2@ == alias_table()[5].2),
        6 => assert(r.0@ == alias_table()[6].0 && r.1@ == alias_table()[6].1 && r.2@ == alias_table()[6].2),
        7 => assert(r.0@ == alias_table()[7].0 && r.1@ == alias_table()[7].1 && r.2@ == alias_table()[7].2),
        8 => assert(r.0@ == alias_table()[8].0 && r.1@ == alias_table()[8].1 && r.2@ == alias_table()[8].2),
        9 => assert(r.0@ == alias_table()[9].0 && r.1@ == alias_table()[9].1 && r.2@ == alias_table()[9].2),
        10 => assert(r.0@ == alias_table()[10].0 && r.1@ == alias_table()[10].1 && r.2@ == alias_table()[10].2),
        11 => assert(r.0@ == alias_table()[11].0 && r.1@ == alias_table()[11].1 && r.2@ == alias_table()[11].2),
        12 => assert(r.0@ == alias_table()[12].0 && r.1@ == alias_table()[12].1 && r.2@ == alias_table()[12].2),
        13 => assert(r.0@ == alias_table()[13].0 && r.1@ == alias_table()[13].1 && r.2@ == alias_table()[13].2),
        14 => assert(r.0@ == alias_table()[14].0 && r.1@ == alias_table()[14].1 && r.2@ == alias_table()[14].2),
        15 => assert(r.0@ == alias_table()[15].0 && r.1@ == alias_table()[15].1 && r.2@ == alias_table()[15].2),
        16 => assert(r.0@ == alias_table()[16].0 && r.1@ == alias_table()[16].1 && r.2@ == alias_table()[16].2),
        17 => assert(r.0@ == alias_table()[17].0 && r.1@ == alias_table()[17].1 && r.2@ == alias_table()[17].2),
        18 => assert(r.0@ == alias_table()[18].0 && r.1@ == alias_table()[18].1 && r.2@ == alias_table()[18].2),
        19 => assert(r.0@ == alias_table()[19].0 && r.1@ == alias_table()[19].1 && r.2@ == alias_table()[19].2),
        20 => assert(r.0@ == alias_table()[20].0 && r.1@ == alias_table()[20].1 && r.2@ == alias_table()[20].2),
        21 => assert(r.0@ == alias_table()[21].0 && r.1@ == alias_table()[21].1 && r.2@ == alias_table()[21].2),
        22 => assert(r.0@ == alias_table()[22].0 && r.1@ == alias_table()[22].1 && r.2@ == alias_table()[22].2),
        23 => assert(r.0@ == alias_table()[23].0 && r.1@ == alias_table()[23].1 && r.2@ == alias_table()[23].2),
        24 => assert(r.0@ == alias_table()[24].0 && r.1@ == alias_table()[24].1 && r.2@ == alias_table()[24].2),
        25 => assert(r.0@ == alias_table()[25].0 && r.1@ == alias_table()[25].1 && r.2@ == alias_table()[25].2),
        26 => assert(r.0@ == alias_table()[26].0 && r.1@ == alias_table()[26].1 && r.2@ == alias_table()[26].2),
        27 => assert(r.0@ == alias_table()[27].0 && r.1@ == alias_table()[27].1 && r.2@ == alias_table()[27].2),
        28 => assert(r.0@ == alias_table()[28].0 && r.1@ == alias_table()[28].1 && r.2@ == alias_table()[28].2),
        29 => assert(r.0@ == alias_table()[29].0 && r.1@ == alias_table()[29].1 && r.2@ == alias_table()[29].2),
        30 => assert(r.0@ == alias_table()[30].0 && r.1@ == alias_table()[30].1 && r.2@ == alias_table()[30].2),
        31 => assert(r.0@ == alias_table()[31].0 && r.1@ == alias_table()[31].1 && r.2@ == alias_table()[31].2),
        32 => assert(r.0@ == alias_table()[32].0 && r.1@ == alias_table()[32].1 && r.2@ == alias_table()[32].2),
        33 => assert(r.0@ == alias_table()[33].0 && r.1@ == alias_table()[33].1 && r.2@ == alias_table()[33].2),
        34 => assert(r.0@ == alias_table()[34].0 && r.1@ == alias_table()[34].1 && r.2@ == alias_table()[34].2),
        35 => assert(r.0@ == alias_table()[35].0 && r.1@ == alias_table()[35].1 && r.2@ == alias_table()[35].2),
        36 => assert(r.0@ == alias_table()[36].0 && r.1@ == alias_table()[36].1 && r.2@ == alias_table()[36].2),
        37 => assert(r.0@ == alias_table()[37].0 && r.1@ == alias_table()[37].1 && r.2@ == alias_table()[37].2),
        38 => assert(r.0@ == alias_table()[38].0 && r.1@ == alias_table()[38].1 && r.2@ == alias_table()[38].2),
        39 => assert(r.0@ == alias_table()[39].0 && r.1@ == alias_table()[39].1 && r.2@ == alias_table()[39].2),
        40 => assert(r.0@ == alias_table()[40].0 && r.1@ == alias_table()[40].1 && r.2@ == alias_table()[40].2),
        41 => assert(r.0@ == alias_table()[41].0 && r.1@ == alias_table()[41].1 && r.2@ == alias_table()[41].2),
        _ => {},
    }
    r
}

pub open spec fn aliases_upto(text: Seq<char>, n: nat) -> Seq<Seq<char>>
    decreases n,
{
    if n == 0 {
        Seq::empty()
    } else {
        let before = aliases_upto(text, (n - 1) as nat);
        let e = alias_table()[n - 1];
        if contains_seq(text, e.0) {
            before + seq![e.1, e.2]
        } else {
            before
        }
    }
}

/// The pinyin aliases of every table word that occurs in `text`, in table order.
pub open spec fn text_aliases_spec(text: Seq<char>) -> Seq<Seq<char>> {
    aliases_upto(text, 42)
}

/// The searchable alias text of a binding.
pub open spec fn binding_alias_spec(b: KeyBindingView) -> Seq<char> {
    join(
        text_aliases_spec(b.label) + text_aliases_spec(b.detail) + text_aliases_spec(
            context_label_spec(b.context),
        ) + text_aliases_spec(category_label_spec(b.category)),
        " "@,
    )
}

/// The texts a help query is matched against.
pub open spec fn haystacks(b: KeyBindingView) -> Seq<Seq<char>> {
    seq![
        join(b.keys, " "@),
        b.label,
        b.detail,
        context_label_spec(b.context),
        category_label_spec(b.category),
        binding_alias_spec(b),
    ]
}

/// Whether a binding matches a help filter: an empty (normalized) filter matches everything,
/// otherwise some normalized text must contain it, contiguously or as a subsequence.
pub open spec fn binding_matches_spec(b: KeyBindingView, filter: Seq<char>) -> bool {
    let needle = normalize_query(filter);
    needle.len() == 0 || exists|h: int|
        0 <= h < 6 && {
            let hay = normalize_query(#[trigger] haystacks(b)[h]);
            contains_seq(hay, needle) || is_subsequence(needle, hay)
        }
}

/// The order of the help list: primary bindings first, then by category, then by label.
pub open spec fn help_key(b: KeyBindingView) -> SortKeyView {
    SortKeyView {
        rank: if b.primary { 0 } else { 1 },
        sub_rank: category_rank(b.category) as u8,
        number: 0,
        name: b.label,
    }
}

pub open spec fn help_keys(bs: Seq<KeyBindingView>) -> Seq<SortKeyView> {
    bs.map_values(|b: KeyBindingView| help_key(b))
}

/// The bindings among the first `n` shown for a help filter.
pub open spec fn help_candidates_upto(
    bs: Seq<KeyBindingView>,
    context: HelpContext,
    category: HelpCategory,
    all: bool,
    filter: Seq<char>,
    n: nat,
) -> Seq<KeyBindingView>
    decreases n,
{
    if n == 0 {
        Seq::empty()
    } else {
        let before = help_candidates_upto(bs, context, category, all, filter, (n - 1) as nat);
        let b = bs[n - 1];
        if b.context == context && (all || b.category == category) && binding_matches_spec(b, filter) {
            before.push(b)
        } else {
            before
        }
    }
}

/// Whether `shown` is `candidates` stably sorted by `help_key`.
pub open spec fn stable_listing(candidates: Seq<KeyBindingView>, shown: Seq<KeyBindingView>) -> bool {
    exists|order: Seq<usize>|
        #![trigger stably_ordered(help_keys(candidates), order)]
        stably_ordered(help_keys(candidates), order) && shown.len() == candidates.len() && forall|k: int|
            0 <= k < shown.len() ==> shown[k] == candidates[order[k] as int]
}

/// Whether `shown` is what the help overlay lists for state `s`: with the overlay open, the
/// bindings of its context that match the lower-cased filter (all categories when the filter
/// is not blank, else the current one), stably sorted by `help_key`; nothing otherwise.
pub open spec fn help_bindings_spec(s: AppStateView, shown: Seq<KeyBindingView>) -> bool {
    match s.overlay {
        OverlayView::Help { filter, context, category, .. } => {
            let f = str_lowercase(filter);
            let candidates = help_candidates_upto(
                s.key_bindings,
                context,
                category,
                trim_ws(f).len() > 0,
                f,
                s.key_bindings.len(),
            );
            stable_listing(candidates, shown)
        },
        _ => shown.len() == 0,
    }
}

/// The first position of `c` at or after `k`, or 0 when it does not occur.
pub open spec fn first_index_from(cats: Seq<HelpCategory>, c: HelpCategory, k: nat) -> int
    decreases cats.len() - k,
{
    if k >= cats.len() {
        0
    } else if cats[k as int] == c {
        k as int
    } else {
        first_index_from(cats, c, k + 1)
    }
}

/// The category the help overlay moves to from `current`: the next (or previous) one,
/// wrapping around; from a category not in the list, as if from the first.
pub open spec fn rotated_category(cats: Seq<HelpCategory>, current: HelpCategory, forward: bool) -> HelpCategory {
    let idx = first_index_from(cats, current, 0);
    let next = if forward {
        (idx + 1) % (cats.len() as int)
    } else if idx == 0 {
        cats.len() - 1
    } else {
        idx - 1
    };
    cats[next]
}

proof fn lemma_first_index_bounds(cats: Seq<HelpCategory>, c: HelpCategory, k: nat)
    requires
        cats.len() > 0,
    ensures
        0 <= first_index_from(cats, c, k) < cats.len(),
    decreases cats.len() - k,
{
    if k < cats.len() && cats[k as int] != c {
        lemma_first_index_bounds(cats, c, k + 1);
    }
}

/// Keeps the characters of `text` that survive normalization, lower-cased.
fn normalize_help_query(text: &str) -> (r: Vec<char>)
    ensures
        r@ == normalize_query(text@),
{
    let chars = chars_of(text);
    let mut out: Vec<char> = Vec::new();
    let mut i: usize = 0;
    while i < chars.len()
        invariant
            i <= chars.len(),
            out@ == normalize_query(chars@.take(i as int)),
        decreases chars.len() - i,
    {
        let lower = lowercase_of_char(chars[i]);
        let ghost start = out@;
        let mut j: usize = 0;
        while j < lower.len()
            invariant
                j <= lower.len(),
                out@ == start + keep_chars(lower@.take(j as int)),
            decreases lower.len() - j,
        {
            let c = lower[j];
            let keep = (('0' <= c && c <= '9') || ('A' <= c && c <= 'Z') || ('a' <= c && c <= 'z'))
                || (!(('!' <= c && c <= '/') || (':' <= c && c <= '@') || ('[' <= c && c <= '`')
                || ('{' <= c && c <= '~')) && !is_whitespace(c));
            assert(lower@.take(j + 1).drop_last() =~= lower@.take(j as int));
            if keep {
                out.push(c);
                assert(out@ =~= start + keep_chars(lower@.take(j + 1)));
            } else {
                assert(out@ =~= start + keep_chars(lower@.take(j + 1)));
            }
            j = j + 1;
        }
        assert(lower@.take(lower.len() as int) =~= lower@);
        assert(chars@.take(i + 1).drop_last() =~= chars@.take(i as int));
        i = i + 1;
    }
    assert(chars@.take(chars.len() as int) =~= chars@);
    r_out(out)
}

fn r_out(v: Vec<char>) -> (r: Vec<char>)
    ensures
        r == v,
{
    v
}

proof fn lemma_subsequence_skip(needle: Seq<char>, hay: Seq<char>, k: int, i: int)
    requires
        0 <= k <= needle.len(),
        0 <= i < hay.len(),
        k < needle.len(),
    ensures
        is_subsequence(needle.skip(k), hay.skip(i)) == (if hay[i] == needle[k] {
            is_subsequence(needle.skip(k + 1), hay.skip(i + 1))
        } else {
            is_subsequence(needle.skip(k), hay.skip(i + 1))
        }),
{
    assert(needle.skip(k).drop_first() =~= needle.skip(k + 1));
    assert(hay.skip(i).drop_first() =~= hay.skip(i + 1));
}

/// Whether `needle` is a subsequence of `haystack` (greedy scan).
fn fuzzy_contains(haystack: &Vec<char>, needle: &Vec<char>) -> (r: bool)
    ensures
        r == is_subsequence(needle@, haystack@),
{
    if needle.len() == 0 {
        return true;
    }
    let mut k: usize = 0;
    let mut i: usize = 0;
    assert(needle@.skip(0) =~= needle@);
    assert(haystack@.skip(0) =~= haystack@);
    while i < haystack.len()
        invariant
            i <= haystack.len(),
            k < needle.len(),
            is_subsequence(needle@, haystack@) == is_subsequence(needle@.skip(k as int), haystack@.skip(i as int)),
        decreases haystack.len() - i,
    {
        proof {
            lemma_subsequence_skip(needle@, haystack@, k as int, i as int);
        }
        if haystack[i] == needle[k] {
            k = k + 1;
            if k == needle.len() {
                assert(needle@.skip(k as int).len() == 0);
                return true;
            }
        }
        i = i + 1;
    }
    assert(haystack@.skip(i as int).len() == 0);
    assert(needle@.skip(k as int).len() > 0);
    false
}

/// The pinyin aliases of every table word in `text`, in table order.
fn text_search_aliases(text: &str) -> (r: Vec<&'static str>)
    ensures
        r@.map_values(|a: &str| a@) == text_aliases_spec(text@),
{
    let mut aliases: Vec<&'static str> = Vec::new();
    let mut i: usize = 0;
    while i < 42
        invariant
            i <= 42,
            aliases@.map_values(|a: &str| a@) == aliases_upto(text@, i as nat),
        decreases 42 - i,
    {
        let (needle, full, initials) = alias_entry(i);
        if str_contains(text, needle) {
            let ghost before = aliases@;
            aliases.push(full);
            aliases.push(initials);
            assert(aliases@.map_values(|a: &str| a@) =~= before.map_values(|a: &str| a@) + seq![
                full@,
                initials@,
            ]);
        }
        i = i + 1;
    }
    aliases
}

fn push_aliases(acc: &mut Vec<String>, text: &str)
    ensures
        views(final(acc)@) == views(old(acc)@) + text_aliases_spec(text@),
{
    let found = text_search_aliases(text);
    let mut i: usize = 0;
    while i < found.len()
        invariant
            i <= found.len(),
            found@.map_values(|a: &str| a@) == text_aliases_spec(text@),
            views(acc@) == views(old(acc)@) + found@.take(i as int).map_values(|a: &str| a@),
        decreases found.len() - i,
    {
        let ghost before = acc@;
        acc.push(String::from_str(found[i]));
        assert(views(acc@) =~= views(before).push(found@[i as int]@));
        assert(found@.take(i + 1).map_values(|a: &str| a@) =~= found@.take(i as int).map_values(
            |a: &str| a@,
        ).push(found@[i as int]@));
        i = i + 1;
    }
    assert(found@.take(found.len() as int) =~= found@);
}

/// The searchable alias text of a binding.
fn help_search_alias(binding: &KeyBinding) -> (r: String)
    ensures
        r@ == binding_alias_spec(binding@),
{
    let mut aliases: Vec<String> = Vec::new();
    push_aliases(&mut aliases, binding.label.as_str());
    push_aliases(&mut aliases, binding.detail.as_str());
    push_aliases(&mut aliases, context_label(binding.context));
    push_aliases(&mut aliases, category_label(binding.category));
    join_strings(&aliases, " ")
}

fn matches_haystack(haystack: &str, needle: &Vec<char>) -> (r: bool)
    ensures
        r == ({
            let hay = normalize_query(haystack@);
            contains_seq(hay, needle@) || is_subsequence(needle@, hay)
        }),
{
    let hay = normalize_help_query(haystack);
    chars_contain(&hay, needle) || fuzzy_contains(&hay, needle)
}

/// Whether a binding matches a help filter.
fn help_binding_matches(binding: &KeyBinding, filter: &str) -> (r: bool)
    ensures
        r == binding_matches_spec(binding@, filter@),
{
    let needle = normalize_help_query(filter);
    if needle.len() == 0 {
        return true;
    }
    let ghost hs = haystacks(binding@);
    let keys = join_strings(&binding.keys, " ");
    let alias = help_search_alias(binding);
    let r = matches_haystack(keys.as_str(), &needle) || matches_haystack(binding.label.as_str(), &needle)
        || matches_haystack(binding.detail.as_str(), &needle) || matches_haystack(
        context_label(binding.context),
        &needle,
    ) || matches_haystack(category_label(binding.category), &needle) || matches_haystack(
        alias.as_str(),
        &needle,
    );
    proof {
        let p = |h: int| {
            let hay = normalize_query(hs[h]);
            contains_seq(hay, needle@) || is_subsequence(needle@, hay)
        };
        assert(r == (p(0) || p(1) || p(2) || p(3) || p(4) || p(5)));
        if r {
            if p(0) { assert(0 <= 0 < 6 && p(0)); }
            else if p(1) { assert(0 <= 1 < 6 && p(1)); }
            else if p(2) { assert(0 <= 2 < 6 && p(2)); }
            else if p(3) { assert(0 <= 3 < 6 && p(3)); }
            else if p(4) { assert(0 <= 4 < 6 && p(4)); }
            else { assert(0 <= 5 < 6 && p(5)); }
        }
    }
    r
}

/// The state once the help overlay opens: what was open is remembered, and the overlay
/// shows the first category of the current context.
pub open spec fn begin_help_spec(s: AppStateView) -> AppStateView {
    let context = help_context_spec(s);
    AppStateView {
        help_resume_overlay: if s.overlay is Closed { None } else { Some(s.overlay) },
        help_resume_input_mode: Some(s.input_mode),
        help_resume_focus: Some(s.focus),
        overlay: OverlayView::Help {
            filter: Seq::empty(),
            scroll: 0,
            context,
            category: help_categories_spec(s.key_bindings, context)[0],
        },
        input_mode: InputMode::Normal,
        ..s
    }
}

/// The state once the help overlay closes: what was open before comes back.
pub open spec fn end_help_spec(s: AppStateView) -> AppStateView {
    if !(s.overlay is Help) {
        AppStateView { overlay: OverlayView::Closed, input_mode: InputMode::Normal, ..s }
    } else {
        AppStateView {
            overlay: match s.help_resume_overlay {
                Some(o) => o,
                None => OverlayView::Closed,
            },
            input_mode: match s.help_resume_input_mode {
                Some(m) => m,
                None => InputMode::Normal,
            },
            focus: match s.help_resume_focus {
                Some(f) => f,
                None => FocusPane::Explorer,
            },
            help_resume_overlay: None,
            help_resume_input_mode: None,
            help_resume_focus: None,
            ..s
        }
    }
}

impl AppState {
    /// Opens the help overlay for the current context.
    pub fn begin_help_overlay(&mut self)
        ensures
            final(self)@ == begin_help_spec(old(self)@),
    {
        let context = self.current_help_context();
        self.help_resume_overlay = match &self.overlay {
            OverlayState::Closed => None,
            current => Some(Box::new(current.duplicate())),
        };
        self.help_resume_input_mode = Some(self.input_mode);
        self.help_resume_focus = Some(self.focus);
        let categories = self.help_categories_for(context);
        let category = categories[0];
        self.overlay = OverlayState::Help { filter: String::new(), scroll: 0, context, category };
        self.input_mode = InputMode::Normal;
    }

    /// Closes the help overlay and restores what was open before it.
    pub fn end_help_overlay(&mut self)
        ensures
            final(self)@ == end_help_spec(old(self)@),
    {
        if !matches!(self.overlay, OverlayState::Help { .. }) {
            self.overlay = OverlayState::Closed;
            self.input_mode = InputMode::Normal;
            return;
        }
        let mut resume: Option<Box<OverlayState>> = None;
        std::mem::swap(&mut resume, &mut self.help_resume_overlay);
        self.overlay = match resume {
            Some(o) => *o,
            None => OverlayState::Closed,
        };
        self.input_mode = match self.help_resume_input_mode {
            Some(m) => m,
            None => InputMode::Normal,
        };
        self.help_resume_input_mode = None;
        self.focus = match self.help_resume_focus {
            Some(f) => f,
            None => FocusPane::Explorer,
        };
        self.help_resume_focus = None;
    }

    /// The categories used by the bindings of `context`.
    pub fn help_categories_for(&self, context: HelpContext) -> (r: Vec<HelpCategory>)
        ensures
            r@ == help_categories_spec(self@.key_bindings, context),
    {
        let ghost bs = self@.key_bindings;
        let mut found: Vec<HelpCategory> = Vec::new();
        let mut c: usize = 0;
        while c < 8
            invariant
                c <= 8,
                bs == views(self.key_bindings@),
                found@ == categories_upto(bs, context, c as nat),
            decreases 8 - c,
        {
            let category = category_at(c);
            let mut i: usize = 0;
            let mut present = false;
            while i < self.key_bindings.len() && !present
                invariant
                    i <= self.key_bindings.len(),
                    bs == views(self.key_bindings@),
                    present ==> has_category(bs, context, category),
                    !present ==> forall|w: int|
                        0 <= w < i ==> !(#[trigger] bs[w].context == context && bs[w].category == category),
                decreases self.key_bindings.len() - i,
            {
                let b = &self.key_bindings[i];
                if b.context == context && b.category == category {
                    present = true;
                    assert(bs[i as int].context == context && bs[i as int].category == category);
                }
                i = i + 1;
            }
            if present {
                found.push(category);
            }
            c = c + 1;
        }
        if found.len() == 0 {
            found.push(HelpCategory::Advanced);
            assert(found@ =~= seq![HelpCategory::Advanced]);
        }
        found
    }

    /// The key hints shown in the footer.
    pub fn footer_bindings(&self) -> (r: Vec<KeyBinding>)
        ensures
            views(r@) == footer_spec(self@),
    {
        let context = self.current_help_context();
        let ghost bs = self@.key_bindings;
        let mut bindings: Vec<KeyBinding> = Vec::new();
        if self.input_mode == InputMode::Normal && self.search_input.as_str().unicode_len() > 0 {
            bindings.push(
                KeyBinding::primary(context, HelpCategory::SearchFilter, &["Esc"], "清滤", "清除当前过滤"),
            );
            assert(views(bindings@)[0].keys =~= seq!["Esc"].map_values(|k: &str| k@));
        }
        let ghost esc = views(bindings@);
        let mut i: usize = 0;
        while i < self.key_bindings.len()
            invariant
                i <= self.key_bindings.len(),
                bs == views(self.key_bindings@),
                views(bindings@) == esc + primaries_upto(bs, context, i as nat),
            decreases self.key_bindings.len() - i,
        {
            let b = &self.key_bindings[i];
            if b.primary && b.context == context {
                let ghost before = bindings@;
                bindings.push(b.duplicate());
                assert(views(bindings@) =~= views(before).push(bs[i as int]));
            }
            i = i + 1;
        }
        let ghost all = views(bindings@);
        bindings.truncate(6);
        assert(views(bindings@) =~= (if all.len() > 6 { all.take(6) } else { all }));
        bindings
    }

    /// The bindings listed by the open help overlay.
    pub fn help_bindings(&self) -> (r: Vec<KeyBinding>)
        ensures
            help_bindings_spec(self@, views(r@)),
    {
        let (filter, context, category) = match &self.overlay {
            OverlayState::Help { filter, context, category, .. } => (
                to_lowercase(filter.as_str()),
                *context,
                *category,
            ),
            _ => return Vec::new(),
        };
        let ghost bs = self@.key_bindings;
        assert(self@.overlay matches OverlayView::Help { filter: f0, context: c0, category: k0, .. } && filter@
            == str_lowercase(f0) && c0 == context && k0 == category);
        let trimmed = trim(filter.as_str());
        let all = trimmed.as_str().unicode_len() > 0;
        let mut candidates: Vec<KeyBinding> = Vec::new();
        let mut keys: Vec<SortKey> = Vec::new();
        let mut i: usize = 0;
        while i < self.key_bindings.len()
            invariant
                i <= self.key_bindings.len(),
                bs == views(self.key_bindings@),
                views(candidates@) == help_candidates_upto(bs, context, category, all, filter@, i as nat),
                keys@.map_values(|k: SortKey| k@) == help_keys(views(candidates@)),
            decreases self.key_bindings.len() - i,
        {
            let b = &self.key_bindings[i];
            if b.context == context && (all || b.category == category) && help_binding_matches(b, filter.as_str()) {
                let ghost before = candidates@;
                let ghost before_keys = keys@;
                candidates.push(b.duplicate());
                keys.push(
                    SortKey {
                        rank: if b.primary { 0 } else { 1 },
                        sub_rank: category_index(b.category),
                        number: 0,
                        name: chars_of(b.label.as_str()),
                    },
                );
                assert(views(candidates@) =~= views(before).push(bs[i as int]));
                assert(keys@.map_values(|k: SortKey| k@) =~= before_keys.map_values(|k: SortKey| k@).push(help_key(bs[i as int])));
                assert(help_keys(views(candidates@)) =~= help_keys(views(before)).push(help_key(bs[i as int])));
            }
            i = i + 1;
        }
        let order = stable_order(&keys);
        let ghost cv = views(candidates@);
        assert(cv == help_candidates_upto(bs, context, category, trim_ws(filter@).len() > 0, filter@, bs.len()));
        let mut shown: Vec<KeyBinding> = Vec::new();
        let mut j: usize = 0;
        while j < order.len()
            invariant
                j <= order.len() == candidates.len(),
                cv == views(candidates@),
                stably_ordered(help_keys(cv), order@),
                shown@.len() == j,
                forall|k: int| 0 <= k < j ==> #[trigger] views(shown@)[k] == cv[order@[k] as int],
            decreases order.len() - j,
        {
            let ghost before = shown@;
            shown.push(candidates[order[j]].duplicate());
            assert(views(shown@) =~= views(before).push(cv[order@[j as int] as int]));
            j = j + 1;
        }
        proof {
            match self@.overlay {
                OverlayView::Help { filter: f0, context: c0, category: k0, .. } => {
                    let f = str_lowercase(f0);
                    let cand = help_candidates_upto(
                        self@.key_bindings,
                        c0,
                        k0,
                        trim_ws(f).len() > 0,
                        f,
                        self@.key_bindings.len(),
                    );
                    assert(cand == cv);
                    assert(stably_ordered(help_keys(cand), order@));
                    assert(views(shown@).len() == cand.len());
                    assert(forall|k: int|
                        0 <= k < views(shown@).len() ==> views(shown@)[k] == cand[order@[k] as int]);
                    assert(stable_listing(cand, views(shown@)));
                },
                _ => {},
            }
        }
        shown
    }

    /// Moves the help overlay to the next (or previous) category of its context, wrapping.
    pub fn rotate_help_category(&mut self, forward: bool)
        ensures
            match old(self)@.overlay {
                OverlayView::Help { filter, context, category, .. } => final(self)@ == (AppStateView {
                    overlay: OverlayView::Help {
                        filter,
                        scroll: 0,
                        context,
                        category: rotated_category(
                            help_categories_spec(old(self)@.key_bindings, context),
                            category,
                            forward,
                        ),
                    },
                    ..old(self)@
                }),
                _ => final(self)@ == old(self)@,
            },
    {
        let (context, current, filter) = match &self.overlay {
            OverlayState::Help { context, category, filter, .. } => (*context, *category, filter.clone()),
            _ => return,
        };
        let categories = self.help_categories_for(context);
        let ghost cats = categories@;
        let mut idx: usize = 0;
        while idx < categories.len() && categories[idx] != current
            invariant
                idx <= categories.len(),
                cats == categories@,
                first_index_from(cats, current, 0) == first_index_from(cats, current, idx as nat),
            decreases categories.len() - idx,
        {
            idx = idx + 1;
        }
        let current_index = if idx < categories.len() { idx } else { 0 };
        proof {
            lemma_first_index_bounds(cats, current, 0);
        }
        let next_index = if forward {
            (current_index + 1) % categories.len()
        } else if current_index == 0 {
            categories.len() - 1
        } else {
            current_index - 1
        };
        let next = categories[next_index];
        self.overlay = OverlayState::Help { filter, scroll: 0, context, category: next };
    }
}


/// The texts of one row of the help listing.
pub struct HelpRowTexts {
    /// `[category] ` in front of the row while searching across categories.
    pub category: Option<String>,
    /// The keys joined with `, `, padded to 18 characters.
    pub keys: String,
    /// The label padded to 10 characters.
    pub label: String,
    pub detail: String,
}

/// Whether the help filter searches across all categories: it is not blank.
pub fn searches_all_categories(filter: &str) -> (r: bool)
    ensures
        r == (trim_ws(filter@).len() > 0),
{
    let t = trim(filter);
    chars_of(t.as_str()).len() > 0
}

/// The texts of the help row for `binding`.
pub fn help_row_texts(binding: &KeyBinding, search_all_categories: bool) -> (r: HelpRowTexts)
    ensures
        crate::domain::preview::opt_view(r.category) == (if search_all_categories {
            Some("["@ + category_label_spec(binding@.category) + "] "@)
        } else {
            None
        }),
        r.keys@ == crate::text::pad_right(join(binding@.keys, ", "@), 18),
        r.label@ == crate::text::pad_right(binding@.label, 10),
        r.detail@ == binding@.detail,
{
    let category = if search_all_categories {
        let mut c = String::from_str("[");
        append_str(&mut c, category_label(binding.category));
        append_str(&mut c, "] ");
        Some(c)
    } else {
        None
    };
    let keys = join_strings(&binding.keys, ", ");
    HelpRowTexts {
        category,
        keys: crate::text::padded(keys.as_str(), 18),
        label: crate::text::padded(binding.label.as_str(), 10),
        detail: crate::text::string_from(&chars_of(binding.detail.as_str())),
    }
}

} // verus!
