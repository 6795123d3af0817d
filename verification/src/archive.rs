//! Archive listings summarised as members grouped by directory, with readable sizes.
use vstd::prelude::*;
use crate::sorting::{compare_chars, lemma_seq_lt_total, lemma_seq_lt_trans, seq_lt};
use crate::text::{append_str, chars_of, push_char, str_eq, str_uppercase, string_from, to_uppercase, views};
use crate::units::{byte_size_text, push_byte_size};
use crate::paths::{lower_ext, lower_extension, path_file_name, path_file_name_spec, path_parent, path_parent_spec};
use crate::infra::syntax::{trim_char, trim_char_exec};
use crate::lexing::{lines_of, parse_u64, parse_u64_spec, text_lines, text_words, words_of};
use crate::text::{contains_seq, join, join_strings, starts_with, str_contains, str_starts_with};
use crate::infra::providers::archive::{ends_with_slash, is_zip_summary, tail_from};

verus! {

/// Members deeper than this many directory levels are left out of the groups.
pub const MAX_DEPTH: usize = 3;
/// Listings are read up to this many members.
pub const MAX_ENTRIES: usize = 2000;

/// One member as an archive tool lists it: its path inside the archive, its size in bytes,
/// and whether it is a directory.
pub struct ListedMember {
    pub path: String,
    pub size: u64,
    pub is_dir: bool,
}

pub struct ListedMemberView {
    pub path: Seq<char>,
    pub size: u64,
    pub is_dir: bool,
}

impl View for ListedMember {
    type V = ListedMemberView;

    open spec fn view(&self) -> ListedMemberView {
        ListedMemberView { path: self.path@, size: self.size, is_dir: self.is_dir }
    }
}

/// A member as shown: its file name and its size as text.
#[derive(Debug, Clone)]
pub struct ArchiveEntry {
    pub name: String,
    pub size: String,
    pub is_dir: bool,
}

pub struct ArchiveEntryView {
    pub name: Seq<char>,
    pub size: Seq<char>,
    pub is_dir: bool,
}

impl View for ArchiveEntry {
    type V = ArchiveEntryView;

    open spec fn view(&self) -> ArchiveEntryView {
        ArchiveEntryView { name: self.name@, size: self.size@, is_dir: self.is_dir }
    }
}

/// The members of one directory, in listing order; `dir` ends with `/`.
#[derive(Debug, Clone)]
pub struct EntryGroup {
    pub dir: String,
    pub entries: Vec<ArchiveEntry>,
}

pub struct EntryGroupView {
    pub dir: Seq<char>,
    pub entries: Seq<ArchiveEntryView>,
}

impl View for EntryGroup {
    type V = EntryGroupView;

    open spec fn view(&self) -> EntryGroupView {
        EntryGroupView { dir: self.dir@, entries: views(self.entries@) }
    }
}

/// An archive summary: groups are ordered by directory and no directory occurs twice.
#[derive(Debug, Clone)]
pub struct ArchivePreview {
    pub format: String,
    pub total_files: usize,
    pub total_size: String,
    pub hidden_count: usize,
    pub grouped: Vec<EntryGroup>,
    pub is_supported: bool,
    pub truncated: bool,
}

pub struct ArchivePreviewView {
    pub format: Seq<char>,
    pub total_files: nat,
    pub total_size: Seq<char>,
    pub hidden_count: nat,
    pub grouped: Seq<EntryGroupView>,
    pub is_supported: bool,
    pub truncated: bool,
}

impl View for ArchivePreview {
    type V = ArchivePreviewView;

    open spec fn view(&self) -> ArchivePreviewView {
        ArchivePreviewView {
            format: self.format@,
            total_files: self.total_files as nat,
            total_size: self.total_size@,
            hidden_count: self.hidden_count as nat,
            grouped: views(self.grouped@),
            is_supported: self.is_supported,
            truncated: self.truncated,
        }
    }
}

/// How often `c` occurs in `s`.
pub open spec fn count_char(s: Seq<char>, c: char) -> nat
    decreases s.len(),
{
    if s.len() == 0 {
        0
    } else {
        count_char(s.drop_last(), c) + if s.last() == c { 1nat } else { 0nat }
    }
}

/// How deep a member lies: the slashes between its first and last component.
pub open spec fn depth_spec(path: Seq<char>) -> nat {
    count_char(trim_char(path, '/'), '/')
}

/// The directory a member is grouped under: its parent with a trailing `/`, or `/` at the top.
pub open spec fn parent_key(path: Seq<char>) -> Seq<char> {
    match path_parent_spec(path) {
        Some(p) => if p.len() == 0 { seq!['/'] } else { p + seq!['/'] },
        None => seq!['/'],
    }
}

/// The name a member is shown under: its file name, or the whole path if it has none.
pub open spec fn member_name(path: Seq<char>) -> Seq<char> {
    match path_file_name_spec(path) {
        Some(n) => n,
        None => path,
    }
}

/// A byte count as `NB`, `x.yKB`, `x.yMB` or `x.yGB`.
pub open spec fn size_text(size: nat) -> Seq<char> {
    byte_size_text(size, Seq::empty())
}

pub open spec fn entry_of(m: ListedMemberView) -> ArchiveEntryView {
    ArchiveEntryView { name: member_name(m.path), size: size_text(m.size as nat), is_dir: m.is_dir }
}

/// The first group, from `i` on, whose directory does not sort before `dir`.
pub open spec fn group_pos(gs: Seq<EntryGroupView>, dir: Seq<char>, i: int) -> int
    decreases gs.len() - i,
{
    if i < 0 || i >= gs.len() {
        gs.len() as int
    } else if seq_lt(gs[i].dir, dir) {
        group_pos(gs, dir, i + 1)
    } else {
        i
    }
}

/// The groups with `e` appended to the group of `dir`, which is created in its place if missing.
pub open spec fn add_to_group(gs: Seq<EntryGroupView>, dir: Seq<char>, e: ArchiveEntryView) -> Seq<EntryGroupView> {
    let p = group_pos(gs, dir, 0);
    if p < gs.len() && gs[p].dir == dir {
        gs.update(p, EntryGroupView { dir, entries: gs[p].entries.push(e) })
    } else {
        gs.insert(p, EntryGroupView { dir, entries: seq![e] })
    }
}

/// The groups formed by the members, each in listing order; members deeper than
/// `MAX_DEPTH` are left out.
pub open spec fn grouping(ms: Seq<ListedMemberView>) -> Seq<EntryGroupView>
    decreases ms.len(),
{
    if ms.len() == 0 {
        Seq::empty()
    } else {
        let prev = grouping(ms.drop_last());
        let m = ms.last();
        if depth_spec(m.path) > MAX_DEPTH {
            prev
        } else {
            add_to_group(prev, parent_key(m.path), entry_of(m))
        }
    }
}

/// Groups strictly ordered by directory, so that no directory occurs twice.
pub open spec fn groups_ordered(gs: Seq<EntryGroupView>) -> bool {
    forall|i: int, j: int| 0 <= i < j < gs.len() ==> seq_lt(#[trigger] gs[i].dir, #[trigger] gs[j].dir)
}

proof fn lemma_group_pos(gs: Seq<EntryGroupView>, dir: Seq<char>, i: int)
    requires
        0 <= i <= gs.len(),
    ensures
        i <= group_pos(gs, dir, i) <= gs.len(),
        forall|k: int| i <= k < group_pos(gs, dir, i) ==> seq_lt(#[trigger] gs[k].dir, dir),
        group_pos(gs, dir, i) < gs.len() ==> !seq_lt(gs[group_pos(gs, dir, i)].dir, dir),
    decreases gs.len() - i,
{
    if i < gs.len() && seq_lt(gs[i].dir, dir) {
        lemma_group_pos(gs, dir, i + 1);
    }
}

proof fn lemma_add_keeps_order(gs: Seq<EntryGroupView>, dir: Seq<char>, e: ArchiveEntryView)
    requires
        groups_ordered(gs),
    ensures
        groups_ordered(add_to_group(gs, dir, e)),
{
    lemma_group_pos(gs, dir, 0);
    let p = group_pos(gs, dir, 0);
    let r = add_to_group(gs, dir, e);
    if p < gs.len() && gs[p].dir == dir {
        assert forall|i: int, j: int| 0 <= i < j < r.len() implies seq_lt(#[trigger] r[i].dir, #[trigger] r[j].dir) by {
            assert(r[i].dir == gs[i].dir);
            assert(r[j].dir == gs[j].dir);
        }
    } else {
        if p < gs.len() {
            lemma_seq_lt_total(gs[p].dir, dir);
        }
        assert forall|i: int, j: int| 0 <= i < j < r.len() implies seq_lt(#[trigger] r[i].dir, #[trigger] r[j].dir) by {
            if j < p {
                assert(r[i].dir == gs[i].dir && r[j].dir == gs[j].dir);
            } else if j == p {
                assert(r[i].dir == gs[i].dir);
            } else if i == p {
                assert(r[j].dir == gs[j - 1].dir);
                if j - 1 > p {
                    lemma_seq_lt_trans(dir, gs[p].dir, gs[j - 1].dir);
                }
            } else if i < p {
                assert(r[i].dir == gs[i].dir && r[j].dir == gs[j - 1].dir);
                if j - 1 >= p {
                    lemma_seq_lt_trans(gs[i].dir, dir, gs[p].dir);
                    if j - 1 > p {
                        lemma_seq_lt_trans(gs[i].dir, gs[p].dir, gs[j - 1].dir);
                    }
                }
            } else {
                assert(r[i].dir == gs[i - 1].dir && r[j].dir == gs[j - 1].dir);
            }
        }
    }
}

/// The groups of any listing are strictly ordered by directory: each directory has exactly one
/// group, and groups come in the order of their directory names.
pub proof fn grouping_ordered(ms: Seq<ListedMemberView>)
    ensures
        groups_ordered(grouping(ms)),
    decreases ms.len(),
{
    if ms.len() > 0 {
        grouping_ordered(ms.drop_last());
        let m = ms.last();
        if depth_spec(m.path) <= MAX_DEPTH {
            lemma_add_keeps_order(grouping(ms.drop_last()), parent_key(m.path), entry_of(m));
        }
    }
}

fn count_slashes(v: &Vec<char>) -> (r: usize)
    ensures
        r == count_char(v@, '/'),
{
    let mut n: usize = 0;
    let mut i: usize = 0;
    while i < v.len()
        invariant
            i <= v.len(),
            n == count_char(v@.take(i as int), '/'),
            n <= i,
        decreases v.len() - i,
    {
        assert(v@.take(i + 1).drop_last() =~= v@.take(i as int));
        if v[i] == '/' {
            n = n + 1;
        }
        i = i + 1;
    }
    assert(v@.take(v.len() as int) =~= v@);
    n
}

/// How deep a member lies.
pub fn get_depth(path: &str) -> (r: usize)
    ensures
        r == depth_spec(path@),
{
    let v = chars_of(path);
    let t = trim_char_exec(&v, '/');
    count_slashes(&t)
}

/// The directory a member is grouped under.
fn parent_key_of(path: &str) -> (r: String)
    ensures
        r@ == parent_key(path@),
{
    match path_parent(path) {
        Some(p) => {
            if chars_of(p.as_str()).len() == 0 {
                let mut s = String::new();
                push_char(&mut s, '/');
                assert(s@ =~= seq!['/']);
                s
            } else {
                let mut s = p;
                push_char(&mut s, '/');
                s
            }
        },
        None => {
            let mut s = String::new();
            push_char(&mut s, '/');
            assert(s@ =~= seq!['/']);
            s
        },
    }
}

/// The name a member is shown under.
fn member_name_of(path: &str) -> (r: String)
    ensures
        r@ == member_name(path@),
{
    match path_file_name(path) {
        Some(n) => n,
        None => string_from(&chars_of(path)),
    }
}

/// A byte count as `NB`, `x.yKB`, `x.yMB` or `x.yGB`.
pub fn format_size(size: u64) -> (r: String)
    ensures
        r@ == size_text(size as nat),
{
    let mut s = String::new();
    push_byte_size(&mut s, size, "");
    proof {
        reveal_strlit("");
        assert(s@ =~= Seq::<char>::empty() + byte_size_text(size as nat, ""@));
    }
    s
}

fn entry_for(m: &ListedMember) -> (r: ArchiveEntry)
    ensures
        r@ == entry_of(m@),
{
    ArchiveEntry { name: member_name_of(m.path.as_str()), size: format_size(m.size), is_dir: m.is_dir }
}

/// Where the group of `dir` is or belongs, and whether it is there.
fn find_group(groups: &Vec<EntryGroup>, dir: &Vec<char>) -> (r: (usize, bool))
    ensures
        r.0 as int == group_pos(views(groups@), dir@, 0),
        r.1 == (r.0 < groups.len() && groups@[r.0 as int].dir@ == dir@),
        r.0 <= groups.len(),
{
    let ghost gs = views(groups@);
    let mut i: usize = 0;
    while i < groups.len()
        invariant
            i <= groups.len(),
            gs == views(groups@),
            group_pos(gs, dir@, 0) == group_pos(gs, dir@, i as int),
        decreases groups.len() - i,
    {
        let gd = chars_of(groups[i].dir.as_str());
        let c = compare_chars(&gd, dir);
        assert(gs[i as int].dir == gd@);
        if c != -1 {
            return (i, c == 0);
        }
        i = i + 1;
    }
    (i, false)
}

/// Appends `e` to the group of `dir`, creating the group in its place if missing.
fn add_member(groups: &mut Vec<EntryGroup>, dir: String, e: ArchiveEntry)
    ensures
        views(final(groups)@) == add_to_group(views(old(groups)@), dir@, e@),
{
    let ghost gs = views(groups@);
    let d = chars_of(dir.as_str());
    let (p, found) = find_group(groups, &d);
    if found {
        let mut g = groups.remove(p);
        let ghost ge = g.entries@;
        g.entries.push(e);
        assert(views(g.entries@) =~= views(ge).push(e@));
        groups.insert(p, g);
        assert(views(groups@) =~= gs.update(p as int, EntryGroupView { dir: dir@, entries: gs[p as int].entries.push(e@) }));
    } else {
        let mut entries: Vec<ArchiveEntry> = Vec::new();
        entries.push(e);
        assert(views(entries@) =~= seq![e@]);
        groups.insert(p, EntryGroup { dir, entries });
        assert(views(groups@) =~= gs.insert(p as int, EntryGroupView { dir: d@, entries: seq![e@] }));
    }
}

/// The groups formed by the members.
fn group_members(members: &Vec<ListedMember>, n: usize) -> (r: Vec<EntryGroup>)
    requires
        n <= members.len(),
    ensures
        views(r@) == grouping(views(members@).take(n as int)),
{
    let mut groups: Vec<EntryGroup> = Vec::new();
    assert(views(groups@) =~= grouping(views(members@).take(0)));
    let mut i: usize = 0;
    while i < n
        invariant
            i <= n <= members.len(),
            views(groups@) == grouping(views(members@).take(i as int)),
        decreases n - i,
    {
        let ghost ms = views(members@).take(i + 1);
        assert(ms.drop_last() =~= views(members@).take(i as int));
        assert(ms.last() == members@[i as int]@);
        let m = &members[i];
        if get_depth(m.path.as_str()) <= MAX_DEPTH {
            let dir = parent_key_of(m.path.as_str());
            let e = entry_for(m);
            add_member(&mut groups, dir, e);
        }
        i = i + 1;
    }
    groups
}

/// The sum of the members' sizes.
pub open spec fn size_total(ms: Seq<ListedMemberView>) -> nat
    decreases ms.len(),
{
    if ms.len() == 0 {
        0
    } else {
        size_total(ms.drop_last()) + ms.last().size as nat
    }
}

proof fn lemma_size_total_prefix(ms: Seq<ListedMemberView>, i: int)
    requires
        0 <= i <= ms.len(),
    ensures
        size_total(ms.take(i)) <= size_total(ms),
    decreases ms.len() - i,
{
    if i < ms.len() {
        lemma_size_total_prefix(ms, i + 1);
        assert(ms.take(i + 1).drop_last() =~= ms.take(i));
    } else {
        assert(ms.take(i) =~= ms);
    }
}

/// The summary of a listing read in full: `total` members in the archive, of which `ms` were
/// read; all sizes summed; the first `MAX_ENTRIES` members read are grouped.
pub open spec fn preview_of(ms: Seq<ListedMemberView>, format: Seq<char>, total: nat) -> ArchivePreviewView {
    ArchivePreviewView {
        format,
        total_files: total,
        total_size: size_text(size_total(ms)),
        hidden_count: if total > ms.len() { (total - ms.len()) as nat } else { 0 },
        grouped: grouping(ms.take(if ms.len() < MAX_ENTRIES { ms.len() as int } else { MAX_ENTRIES as int })),
        is_supported: true,
        truncated: total > MAX_ENTRIES,
    }
}

/// The sum of the members' sizes, or `None` where it does not fit in a `u64`.
fn checked_total(members: &Vec<ListedMember>) -> (r: Option<u64>)
    ensures
        match r {
            Some(t) => t as nat == size_total(views(members@)),
            None => size_total(views(members@)) > u64::MAX,
        },
{
    let ghost ms = views(members@);
    let mut t: u64 = 0;
    let mut i: usize = 0;
    assert(ms.take(0) =~= Seq::<ListedMemberView>::empty());
    while i < members.len()
        invariant
            i <= members.len(),
            ms == views(members@),
            t as nat == size_total(ms.take(i as int)),
        decreases members.len() - i,
    {
        assert(ms.take(i + 1).drop_last() =~= ms.take(i as int));
        assert(ms.take(i + 1).last() == members@[i as int]@);
        match t.checked_add(members[i].size) {
            Some(u) => {
                t = u;
            },
            None => {
                proof {
                    lemma_size_total_prefix(ms, i + 1);
                }
                return None;
            },
        }
        i = i + 1;
    }
    assert(ms.take(members.len() as int) =~= ms);
    Some(t)
}

/// Summarises a listing of `total_count` members of which `members` were read.
pub fn build_preview(members: &Vec<ListedMember>, format: String, total_count: usize) -> (r: ArchivePreview)
    requires
        size_total(views(members@)) <= u64::MAX,
    ensures
        r@ == preview_of(views(members@), format@, total_count as nat),
{
    let total_size = match checked_total(members) {
        Some(t) => t,
        None => 0,
    };
    let hidden_count = total_count.saturating_sub(members.len());
    let n = if members.len() < MAX_ENTRIES { members.len() } else { MAX_ENTRIES };
    let grouped = group_members(members, n);
    ArchivePreview {
        format,
        total_files: total_count,
        total_size: format_size(total_size),
        hidden_count,
        grouped,
        is_supported: true,
        truncated: total_count > MAX_ENTRIES,
    }
}

/// The member a `zipinfo -l` line describes: size in the fourth column (0 if unreadable),
/// name from the ninth on.
pub open spec fn zip_member_of(cols: Seq<Seq<char>>) -> ListedMemberView {
    let name = join(cols.skip(8), seq![' ']);
    let size = match parse_u64_spec(cols[3]) {
        Some(v) => v,
        None => 0u64,
    };
    ListedMemberView { path: name, size, is_dir: name.len() > 0 && name.last() == '/' }
}

pub open spec fn zip_members_from(ls: Seq<Seq<char>>, i: int, acc: Seq<ListedMemberView>) -> Seq<ListedMemberView>
    decreases ls.len() - i,
{
    if i < 0 || i >= ls.len() || acc.len() >= MAX_ENTRIES || is_zip_summary(ls[i]) {
        acc
    } else if text_words(ls[i]).len() < 9 {
        zip_members_from(ls, i + 1, acc)
    } else {
        zip_members_from(ls, i + 1, acc.push(zip_member_of(text_words(ls[i]))))
    }
}

/// The members of a `zipinfo -l` listing: the lines after the three header lines, up to the
/// summary, those with at least nine columns, at most `MAX_ENTRIES` of them.
pub open spec fn zip_members(out: Seq<char>) -> Seq<ListedMemberView> {
    zip_members_from(text_lines(out), 3, Seq::empty())
}

/// Reads the members of a `zipinfo -l` listing.
pub fn read_zip_members(out: &str) -> (r: Vec<ListedMember>)
    ensures
        views(r@) == zip_members(out@),
{
    let ls = lines_of(out);
    let mut r: Vec<ListedMember> = Vec::new();
    assert(views(r@) =~= Seq::<ListedMemberView>::empty());
    let mut i: usize = 3;
    while i < ls.len()
        invariant
            3 <= i,
            zip_members(out@) == zip_members_from(views(ls@), i as int, views(r@)),
            views(ls@) == text_lines(out@),
            r.len() < MAX_ENTRIES,
        decreases ls.len() - i,
    {
        let line = ls[i].as_str();
        if str_contains(line, " files") && str_contains(line, " bytes") {
            return r;
        }
        let cols = words_of(line);
        if cols.len() >= 9 {
            let size = match parse_u64(cols[3].as_str()) {
                Some(v) => v,
                None => 0,
            };
            let rest = tail_from(&cols, 8);
            let name = join_strings(&rest, " ");
            proof {
                reveal_strlit(" ");
                assert(" "@ =~= seq![' ']);
            }
            let is_dir = ends_with_slash(name.as_str());
            let m = ListedMember { path: name, size, is_dir };
            let ghost before = r@;
            r.push(m);
            assert(views(r@) =~= views(before).push(zip_member_of(views(cols@))));
            if r.len() >= MAX_ENTRIES {
                assert(zip_members_from(views(ls@), i + 1, views(r@)) == views(r@));
                return r;
            }
        }
        i = i + 1;
    }
    r
}

/// The members of a `tar -tf` listing: one per line, at most `MAX_ENTRIES`, with no size.
pub open spec fn tar_members(out: Seq<char>) -> Seq<ListedMemberView> {
    let ls = text_lines(out);
    let n = if ls.len() < MAX_ENTRIES { ls.len() as int } else { MAX_ENTRIES as int };
    Seq::new(n as nat, |i: int| ListedMemberView { path: ls[i], size: 0, is_dir: ls[i].len() > 0 && ls[i].last() == '/' })
}

/// Reads the members of a `tar -tf` listing, and counts all its lines.
pub fn read_tar_members(out: &str) -> (r: (Vec<ListedMember>, usize))
    ensures
        views(r.0@) == tar_members(out@),
        r.1 == text_lines(out@).len(),
{
    let ls = lines_of(out);
    let n = if ls.len() < MAX_ENTRIES { ls.len() } else { MAX_ENTRIES };
    let mut r: Vec<ListedMember> = Vec::new();
    let mut i: usize = 0;
    while i < n
        invariant
            i <= n <= ls.len(),
            n == (if ls.len() < MAX_ENTRIES { ls.len() } else { MAX_ENTRIES }),
            views(ls@) == text_lines(out@),
            views(r@) == tar_members(out@).take(i as int),
        decreases n - i,
    {
        let is_dir = ends_with_slash(ls[i].as_str());
        let m = ListedMember { path: string_from(&chars_of(ls[i].as_str())), size: 0, is_dir };
        let ghost before = r@;
        r.push(m);
        assert(tar_members(out@)[i as int] == m@);
        assert(views(r@) =~= views(before).push(m@));
        assert(tar_members(out@).take(i + 1) =~= tar_members(out@).take(i as int).push(m@));
        i = i + 1;
    }
    assert(tar_members(out@).take(n as int) =~= tar_members(out@));
    (r, ls.len())
}

/// The members read from the `7z l` lines at `i` and after: lines with a space, not a rule,
/// with at least six columns and a size in the fourth; the name from the sixth column on.
pub open spec fn sevenz_members_from(ls: Seq<Seq<char>>, i: int, acc: Seq<ListedMemberView>) -> Seq<ListedMemberView>
    decreases ls.len() - i,
{
    if i < 0 || i >= ls.len() || acc.len() >= MAX_ENTRIES {
        acc
    } else if !contains_seq(ls[i], seq![' ']) || starts_with(ls[i], "----"@) || text_words(ls[i]).len() < 6 {
        sevenz_members_from(ls, i + 1, acc)
    } else {
        match parse_u64_spec(text_words(ls[i])[3]) {
            Some(sz) => sevenz_members_from(
                ls,
                i + 1,
                acc.push(ListedMemberView { path: join(text_words(ls[i]).skip(5), seq![' ']), size: sz, is_dir: false }),
            ),
            None => sevenz_members_from(ls, i + 1, acc),
        }
    }
}

pub open spec fn sevenz_members(out: Seq<char>) -> Seq<ListedMemberView> {
    sevenz_members_from(text_lines(out), 0, Seq::empty())
}

/// Reads the members of a `7z l` listing.
pub fn read_7z_members(out: &str) -> (r: Vec<ListedMember>)
    ensures
        views(r@) == sevenz_members(out@),
{
    let ls = lines_of(out);
    let mut r: Vec<ListedMember> = Vec::new();
    assert(views(r@) =~= Seq::<ListedMemberView>::empty());
    let mut i: usize = 0;
    proof {
        reveal_strlit(" ");
        assert(" "@ =~= seq![' ']);
    }
    while i < ls.len()
        invariant
            sevenz_members(out@) == sevenz_members_from(views(ls@), i as int, views(r@)),
            views(ls@) == text_lines(out@),
            r.len() < MAX_ENTRIES,
            " "@ == seq![' '],
        decreases ls.len() - i,
    {
        let line = ls[i].as_str();
        if str_contains(line, " ") && !str_starts_with(line, "----") {
            let cols = words_of(line);
            if cols.len() >= 6 {
                match parse_u64(cols[3].as_str()) {
                    Some(sz) => {
                        let rest = tail_from(&cols, 5);
                        let name = join_strings(&rest, " ");
                        let ghost before = r@;
                        r.push(ListedMember { path: name, size: sz, is_dir: false });
                        assert(views(r@) =~= views(before).push(
                            ListedMemberView { path: join(views(cols@).skip(5), seq![' ']), size: sz, is_dir: false },
                        ));
                        if r.len() >= MAX_ENTRIES {
                            assert(sevenz_members_from(views(ls@), i + 1, views(r@)) == views(r@));
                            return r;
                        }
                    },
                    None => {},
                }
            }
        }
        i = i + 1;
    }
    r
}

/// Which tool lists an archive.
#[derive(Debug, Clone, Copy, PartialEq, Eq, Structural)]
pub enum ListingTool {
    /// `zipinfo -l`
    Zip,
    /// `tar -tf`
    Tar,
    /// `7z l`
    SevenZip,
    /// No tool: the archive is reported as unsupported.
    Unlisted,
}

pub open spec fn tool_for(ext: Seq<char>) -> ListingTool {
    if ext == "zip"@ {
        ListingTool::Zip
    } else if ext == "tar"@ || ext == "gz"@ || ext == "tgz"@ {
        ListingTool::Tar
    } else if ext == "7z"@ {
        ListingTool::SevenZip
    } else {
        ListingTool::Unlisted
    }
}

/// The format name reported for an archive of this tool and extension.
pub open spec fn format_name_spec(tool: ListingTool, ext: Seq<char>) -> Seq<char> {
    match tool {
        ListingTool::Zip => "ZIP Archive"@,
        ListingTool::Tar => "TAR Archive"@,
        ListingTool::SevenZip => "7Z Archive"@,
        ListingTool::Unlisted => str_uppercase(ext) + " Archive"@,
    }
}

/// The summary of an archive that could not be listed.
pub open spec fn unsupported_of(format: Seq<char>) -> ArchivePreviewView {
    ArchivePreviewView {
        format,
        total_files: 0,
        total_size: "-"@,
        hidden_count: 0,
        grouped: Seq::empty(),
        is_supported: false,
        truncated: false,
    }
}

/// The members a tool's listing holds, and how many members the archive has.
pub open spec fn listed_members(tool: ListingTool, out: Seq<char>) -> (Seq<ListedMemberView>, nat) {
    match tool {
        ListingTool::Zip => (zip_members(out), zip_members(out).len()),
        ListingTool::Tar => (tar_members(out), text_lines(out).len()),
        _ => (sevenz_members(out), sevenz_members(out).len()),
    }
}

/// The summary of the archive at `path`, given what its listing tool printed (`None` where the
/// tool failed). `None` only where the listed sizes sum beyond `u64`.
pub open spec fn archive_preview_spec(path: Seq<char>, listing: Option<Seq<char>>) -> Option<ArchivePreviewView> {
    let ext = lower_ext(path);
    let tool = tool_for(ext);
    let format = format_name_spec(tool, ext);
    if tool == ListingTool::Unlisted {
        Some(unsupported_of(format))
    } else {
        match listing {
            None => Some(unsupported_of(format)),
            Some(out) => {
                let (ms, total) = listed_members(tool, out);
                if size_total(ms) <= u64::MAX {
                    Some(preview_of(ms, format, total))
                } else {
                    None
                }
            },
        }
    }
}

/// Which tool lists the archive at `path`.
pub fn listing_tool(path: &str) -> (r: ListingTool)
    ensures
        r == tool_for(lower_ext(path@)),
{
    let ext = lower_extension(path);
    let e = ext.as_str();
    proof {
        reveal_strlit("zip");
        reveal_strlit("tar");
        reveal_strlit("gz");
        reveal_strlit("tgz");
        reveal_strlit("7z");
    }
    if str_eq(e, "zip") {
        ListingTool::Zip
    } else if str_eq(e, "tar") || str_eq(e, "gz") || str_eq(e, "tgz") {
        ListingTool::Tar
    } else if str_eq(e, "7z") {
        ListingTool::SevenZip
    } else {
        ListingTool::Unlisted
    }
}

fn format_name(tool: ListingTool, ext: &str) -> (r: String)
    ensures
        r@ == format_name_spec(tool, ext@),
{
    match tool {
        ListingTool::Zip => string_from(&chars_of("ZIP Archive")),
        ListingTool::Tar => string_from(&chars_of("TAR Archive")),
        ListingTool::SevenZip => string_from(&chars_of("7Z Archive")),
        ListingTool::Unlisted => {
            let mut s = to_uppercase(ext);
            append_str(&mut s, " Archive");
            s
        },
    }
}

/// The summary of an archive that could not be listed.
pub fn unsupported_preview(format: String) -> (r: ArchivePreview)
    ensures
        r@ == unsupported_of(format@),
{
    let grouped: Vec<EntryGroup> = Vec::new();
    assert(views(grouped@) =~= Seq::<EntryGroupView>::empty());
    ArchivePreview {
        format,
        total_files: 0,
        total_size: string_from(&chars_of("-")),
        hidden_count: 0,
        grouped,
        is_supported: false,
        truncated: false,
    }
}

/// Summarises the archive at `path` from what its listing tool printed (`None` where the tool
/// failed); archives of other extensions are reported unsupported without a listing.
pub fn preview_archive(path: &str, listing: Option<&str>) -> (r: Option<ArchivePreview>)
    ensures
        match r {
            Some(p) => archive_preview_spec(path@, match listing { Some(s) => Some(s@), None => None }) == Some(p@),
            None => archive_preview_spec(path@, match listing { Some(s) => Some(s@), None => None }).is_none(),
        },
{
    let ext = lower_extension(path);
    let tool = listing_tool(path);
    let format = format_name(tool, ext.as_str());
    if tool == ListingTool::Unlisted {
        return Some(unsupported_preview(format));
    }
    match listing {
        None => Some(unsupported_preview(format)),
        Some(out) => {
            let (members, total) = match tool {
                ListingTool::Zip => {
                    let ms = read_zip_members(out);
                    let n = ms.len();
                    (ms, n)
                },
                ListingTool::Tar => read_tar_members(out),
                _ => {
                    let ms = read_7z_members(out);
                    let n = ms.len();
                    (ms, n)
                },
            };
            match checked_total(&members) {
                Some(_) => Some(build_preview(&members, format, total)),
                None => None,
            }
        },
    }
}

} // verus!
