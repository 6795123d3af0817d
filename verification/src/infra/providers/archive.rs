//! Archive listings shown as a directory tree.
use vstd::prelude::*;
use crate::sorting::{compare_chars, lemma_seq_lt_total, lemma_seq_lt_trans, seq_lt};
use crate::text::{append_str, chars_of, decimal, push_char, push_decimal, string_from, views};
use crate::units::{byte_size_text, push_byte_size};
use crate::lexing::{lines_of, parse_u64, parse_u64_spec, text_lines, text_words, words_of};
use crate::text::{contains_seq, join, join_strings, starts_with, str_contains, str_starts_with, trim_end_newlines};
use crate::domain::preview::{opt_view, plain_span, PreviewDocView, PreviewKind, PreviewLine, PreviewResult, PreviewSpanView, PreviewWrapMode};
use crate::paths::{path_extension, path_extension_spec, path_file_name, path_file_name_spec};
use crate::text::{ascii_lower, decimal_string, to_ascii_lowercase};

verus! {

/// One member of an archive listing.
#[derive(Debug, Clone)]
pub struct ArchiveEntry {
    pub path: String,
    pub size: Option<u64>,
    pub is_dir: bool,
}

pub struct ArchiveEntryView {
    pub path: Seq<char>,
    pub size: Option<u64>,
    pub is_dir: bool,
}

impl View for ArchiveEntry {
    type V = ArchiveEntryView;

    open spec fn view(&self) -> ArchiveEntryView {
        ArchiveEntryView { path: self.path@, size: self.size, is_dir: self.is_dir }
    }
}

/// A directory tree built from archive paths; children are kept ordered by name.
#[derive(Debug)]
pub struct TreeNode {
    pub is_dir: bool,
    pub size: Option<u64>,
    pub children: Vec<TreeChild>,
}

/// A named child of a tree node.
#[derive(Debug)]
pub struct TreeChild {
    pub name: String,
    pub node: TreeNode,
}

/// The abstract tree: its flags and its named children in order.
pub struct TreeView {
    pub is_dir: bool,
    pub size: Option<u64>,
    pub children: Seq<(Seq<char>, TreeView)>,
}

pub open spec fn node_view(n: TreeNode) -> TreeView
    decreases n, 0int,
{
    TreeView { is_dir: n.is_dir, size: n.size, children: children_view(n.children@, n.children@.len() as int) }
}

/// The views of the first `k` children.
pub open spec fn children_view(cs: Seq<TreeChild>, k: int) -> Seq<(Seq<char>, TreeView)>
    decreases cs, k,
{
    if k <= 0 || k > cs.len() {
        Seq::empty()
    } else {
        children_view(cs, k - 1).push((cs[k - 1].name@, node_view(cs[k - 1].node)))
    }
}


pub open spec fn kids(n: TreeNode) -> Seq<(Seq<char>, TreeView)> {
    children_view(n.children@, n.children@.len() as int)
}

pub proof fn lemma_children_view(cs: Seq<TreeChild>, k: int)
    requires
        0 <= k <= cs.len(),
    ensures
        children_view(cs, k).len() == k,
        forall|i: int| 0 <= i < k ==> #[trigger] children_view(cs, k)[i] == (cs[i].name@, node_view(cs[i].node)),
    decreases k,
{
    if k > 0 {
        lemma_children_view(cs, k - 1);
    }
}

/// The children seen as a whole sequence.
pub proof fn lemma_kids(n: TreeNode)
    ensures
        kids(n).len() == n.children@.len(),
        forall|i: int| 0 <= i < n.children@.len() ==> #[trigger] kids(n)[i] == (n.children@[i].name@, node_view(n.children@[i].node)),
        node_view(n).children == kids(n),
{
    lemma_children_view(n.children@, n.children@.len() as int);
}

/// A node with no flags and no children.
pub open spec fn empty_tree() -> TreeView {
    TreeView { is_dir: false, size: None, children: Seq::empty() }
}

/// The first position, from `i` on, whose name does not sort before `name`.
pub open spec fn first_not_before(cs: Seq<(Seq<char>, TreeView)>, name: Seq<char>, i: int) -> int
    decreases cs.len() - i,
{
    if i < 0 || i >= cs.len() {
        cs.len() as int
    } else if seq_lt(cs[i].0, name) {
        first_not_before(cs, name, i + 1)
    } else {
        i
    }
}

/// Where `name` is found or would be inserted in an ordered child list.
pub open spec fn slot(cs: Seq<(Seq<char>, TreeView)>, name: Seq<char>) -> int {
    first_not_before(cs, name, 0)
}

pub open spec fn has_child_at(cs: Seq<(Seq<char>, TreeView)>, name: Seq<char>, p: int) -> bool {
    0 <= p < cs.len() && cs[p].0 == name
}

/// The child named `name`, or an empty node.
pub open spec fn child_named(cs: Seq<(Seq<char>, TreeView)>, name: Seq<char>) -> TreeView {
    let p = slot(cs, name);
    if has_child_at(cs, name, p) {
        cs[p].1
    } else {
        empty_tree()
    }
}

/// The child list with the child named `name` replaced by, or completed with, `c`.
pub open spec fn with_child(cs: Seq<(Seq<char>, TreeView)>, name: Seq<char>, c: TreeView) -> Seq<(Seq<char>, TreeView)> {
    let p = slot(cs, name);
    if has_child_at(cs, name, p) {
        cs.update(p, (name, c))
    } else {
        cs.insert(p, (name, c))
    }
}

/// The tree after recording the path `comps`: inner components become directories, and the
/// last one takes the entry's flag and size.
pub open spec fn insert_path(t: TreeView, comps: Seq<Seq<char>>, leaf_dir: bool, size: Option<u64>) -> TreeView
    decreases comps.len(),
{
    if comps.len() == 0 {
        t
    } else {
        let name = comps[0];
        let c = child_named(t.children, name);
        let c2 = if comps.len() == 1 {
            TreeView { is_dir: leaf_dir, size, children: c.children }
        } else {
            insert_path(TreeView { is_dir: true, size: c.size, children: c.children }, comps.drop_first(), leaf_dir, size)
        };
        TreeView { is_dir: t.is_dir, size: t.size, children: with_child(t.children, name, c2) }
    }
}

/// Splitting state for a path: the finished components and the one being read.
pub open spec fn split_state(p: Seq<char>) -> (Seq<Seq<char>>, Seq<char>)
    decreases p.len(),
{
    if p.len() == 0 {
        (Seq::empty(), Seq::empty())
    } else {
        let (done, cur) = split_state(p.drop_last());
        if p.last() == '/' {
            if cur.len() > 0 {
                (done.push(cur), Seq::empty())
            } else {
                (done, Seq::empty())
            }
        } else {
            (done, cur.push(p.last()))
        }
    }
}

/// The non-empty `/`-separated components of a path.
pub open spec fn components(p: Seq<char>) -> Seq<Seq<char>> {
    let (done, cur) = split_state(p);
    if cur.len() > 0 {
        done.push(cur)
    } else {
        done
    }
}

/// The tree after recording one entry; a path without components changes nothing.
pub open spec fn insert_entry(t: TreeView, e: ArchiveEntryView) -> TreeView {
    let comps = components(e.path);
    if comps.len() == 0 {
        t
    } else {
        insert_path(t, comps, e.is_dir || (e.path.len() > 0 && e.path.last() == '/'), e.size)
    }
}

/// The tree of a whole listing, entries recorded in order.
pub open spec fn tree_of(es: Seq<ArchiveEntryView>) -> TreeView
    decreases es.len(),
{
    if es.len() == 0 {
        empty_tree()
    } else {
        insert_entry(tree_of(es.drop_last()), es.last())
    }
}


/// Children strictly ordered by name, so that no name occurs twice.
pub open spec fn names_ordered(cs: Seq<(Seq<char>, TreeView)>) -> bool {
    forall|i: int, j: int| 0 <= i < j < cs.len() ==> seq_lt(#[trigger] cs[i].0, #[trigger] cs[j].0)
}

/// Every level of the tree has its children strictly ordered by name.
pub open spec fn tree_ordered(t: TreeView) -> bool
    decreases t, 1int, 0int,
{
    names_ordered(t.children) && subtrees_ordered(t, t.children.len() as int)
}

/// The first `k` children of `t` are ordered trees.
pub open spec fn subtrees_ordered(t: TreeView, k: int) -> bool
    decreases t, 0int, k,
{
    if k <= 0 || k > t.children.len() {
        true
    } else {
        subtrees_ordered(t, k - 1) && tree_ordered(t.children[k - 1].1)
    }
}

proof fn lemma_subtrees_ordered(t: TreeView, k: int)
    requires
        0 <= k <= t.children.len(),
    ensures
        subtrees_ordered(t, k) <==> forall|i: int| 0 <= i < k ==> #[trigger] tree_ordered(t.children[i].1),
    decreases k,
{
    if k > 0 {
        lemma_subtrees_ordered(t, k - 1);
        assert(subtrees_ordered(t, k) == (subtrees_ordered(t, k - 1) && tree_ordered(t.children[k - 1].1)));
    } else {
        assert(subtrees_ordered(t, k));
    }
}

proof fn lemma_tree_ordered(t: TreeView)
    ensures
        tree_ordered(t) <==> (names_ordered(t.children) && forall|i: int| 0 <= i < t.children.len() ==> #[trigger] tree_ordered(t.children[i].1)),
{
    lemma_subtrees_ordered(t, t.children.len() as int);
}

proof fn lemma_first_not_before(cs: Seq<(Seq<char>, TreeView)>, name: Seq<char>, i: int)
    requires
        0 <= i <= cs.len(),
    ensures
        i <= first_not_before(cs, name, i) <= cs.len(),
        forall|k: int| i <= k < first_not_before(cs, name, i) ==> seq_lt(#[trigger] cs[k].0, name),
        first_not_before(cs, name, i) < cs.len() ==> !seq_lt(cs[first_not_before(cs, name, i)].0, name),
    decreases cs.len() - i,
{
    if i < cs.len() && seq_lt(cs[i].0, name) {
        lemma_first_not_before(cs, name, i + 1);
    }
}

proof fn lemma_with_child_ordered(cs: Seq<(Seq<char>, TreeView)>, name: Seq<char>, c: TreeView)
    requires
        names_ordered(cs),
        forall|i: int| 0 <= i < cs.len() ==> #[trigger] tree_ordered(cs[i].1),
        tree_ordered(c),
    ensures
        names_ordered(with_child(cs, name, c)),
        forall|i: int| 0 <= i < with_child(cs, name, c).len() ==> #[trigger] tree_ordered(with_child(cs, name, c)[i].1),
{
    lemma_first_not_before(cs, name, 0);
    let p = slot(cs, name);
    let r = with_child(cs, name, c);
    if has_child_at(cs, name, p) {
        assert forall|i: int, j: int| 0 <= i < j < r.len() implies seq_lt(#[trigger] r[i].0, #[trigger] r[j].0) by {
            assert(r[i].0 == cs[i].0);
            assert(r[j].0 == cs[j].0);
        }
        assert forall|i: int| 0 <= i < r.len() implies #[trigger] tree_ordered(r[i].1) by {
            if i != p {
                assert(r[i] == cs[i]);
            }
        }
    } else {
        if p < cs.len() {
            lemma_seq_lt_total(cs[p].0, name);
        }
        assert forall|i: int, j: int| 0 <= i < j < r.len() implies seq_lt(#[trigger] r[i].0, #[trigger] r[j].0) by {
            if j < p {
                assert(r[i].0 == cs[i].0 && r[j].0 == cs[j].0);
            } else if j == p {
                assert(r[i].0 == cs[i].0);
            } else if i == p {
                assert(r[j].0 == cs[j - 1].0);
                if j - 1 > p {
                    lemma_seq_lt_trans(name, cs[p].0, cs[j - 1].0);
                }
            } else if i < p {
                assert(r[i].0 == cs[i].0 && r[j].0 == cs[j - 1].0);
                if j - 1 >= p {
                    lemma_seq_lt_trans(cs[i].0, name, cs[p].0);
                    if j - 1 > p {
                        lemma_seq_lt_trans(cs[i].0, cs[p].0, cs[j - 1].0);
                    }
                }
            } else {
                assert(r[i].0 == cs[i - 1].0 && r[j].0 == cs[j - 1].0);
            }
        }
        assert forall|i: int| 0 <= i < r.len() implies #[trigger] tree_ordered(r[i].1) by {
            if i < p {
                assert(r[i] == cs[i]);
            } else if i > p {
                assert(r[i] == cs[i - 1]);
            }
        }
    }
}

proof fn lemma_insert_path_ordered(t: TreeView, comps: Seq<Seq<char>>, leaf_dir: bool, size: Option<u64>)
    requires
        tree_ordered(t),
    ensures
        tree_ordered(insert_path(t, comps, leaf_dir, size)),
    decreases comps.len(),
{
    lemma_tree_ordered(t);
    if comps.len() > 0 {
        let name = comps[0];
        let p = slot(t.children, name);
        lemma_first_not_before(t.children, name, 0);
        let c = child_named(t.children, name);
        if has_child_at(t.children, name, p) {
            assert(tree_ordered(t.children[p].1));
        } else {
            lemma_tree_ordered(empty_tree());
        }
        assert(tree_ordered(c));
        let c2 = if comps.len() == 1 {
            TreeView { is_dir: leaf_dir, size, children: c.children }
        } else {
            insert_path(TreeView { is_dir: true, size: c.size, children: c.children }, comps.drop_first(), leaf_dir, size)
        };
        lemma_tree_ordered(c);
        if comps.len() == 1 {
            lemma_tree_ordered(c2);
        } else {
            let base = TreeView { is_dir: true, size: c.size, children: c.children };
            lemma_tree_ordered(base);
            lemma_insert_path_ordered(base, comps.drop_first(), leaf_dir, size);
        }
        lemma_with_child_ordered(t.children, name, c2);
        let r = TreeView { is_dir: t.is_dir, size: t.size, children: with_child(t.children, name, c2) };
        assert(r == insert_path(t, comps, leaf_dir, size));
        lemma_tree_ordered(r);
    }
}

/// Like a sorted map, every level of a listing's tree holds each name once, in name order,
/// whatever order the listing came in.
pub proof fn listing_tree_ordered(es: Seq<ArchiveEntryView>)
    ensures
        tree_ordered(tree_of(es)),
    decreases es.len(),
{
    if es.len() == 0 {
        lemma_tree_ordered(empty_tree());
    } else {
        listing_tree_ordered(es.drop_last());
        let t = tree_of(es.drop_last());
        let e = es.last();
        let comps = components(e.path);
        if comps.len() > 0 {
            lemma_insert_path_ordered(t, comps, e.is_dir || (e.path.len() > 0 && e.path.last() == '/'), e.size);
        }
    }
}

/// The non-empty `/`-separated components of `path`, in order.
pub fn split_components(path: &str) -> (r: Vec<String>)
    ensures
        views(r@) == components(path@),
{
    let chars = chars_of(path);
    let mut done: Vec<String> = Vec::new();
    let mut cur: Vec<char> = Vec::new();
    let mut i: usize = 0;
    while i < chars.len()
        invariant
            i <= chars.len(),
            chars@ == path@,
            (views(done@), cur@) == split_state(chars@.take(i as int)),
        decreases chars.len() - i,
    {
        let c = chars[i];
        assert(chars@.take(i + 1).drop_last() =~= chars@.take(i as int));
        if c == '/' {
            if cur.len() > 0 {
                let part = string_from(&cur);
                done.push(part);
                assert(views(done@) =~= split_state(chars@.take(i as int)).0.push(cur@));
                cur = Vec::new();
            }
        } else {
            cur.push(c);
        }
        i = i + 1;
    }
    assert(chars@.take(chars.len() as int) =~= chars@);
    if cur.len() > 0 {
        let part = string_from(&cur);
        done.push(part);
        assert(views(done@) =~= split_state(chars@).0.push(cur@));
    }
    done
}

/// The view of a child list.
pub open spec fn kids_of(cs: Seq<TreeChild>) -> Seq<(Seq<char>, TreeView)> {
    children_view(cs, cs.len() as int)
}

proof fn lemma_first_not_before_step(cs: Seq<(Seq<char>, TreeView)>, name: Seq<char>, i: int)
    requires
        0 <= i < cs.len(),
        seq_lt(cs[i].0, name),
    ensures
        first_not_before(cs, name, i) == first_not_before(cs, name, i + 1),
{
}

/// Where `name` belongs among `children`, and whether a child of that name is there.
fn find_slot(children: &Vec<TreeChild>, name: &Vec<char>) -> (r: (usize, bool))
    ensures
        r.0 as int == slot(kids_of(children@), name@),
        r.1 == has_child_at(kids_of(children@), name@, r.0 as int),
        r.0 <= children@.len(),
{
    let ghost cs = kids_of(children@);
    proof {
        lemma_children_view(children@, children@.len() as int);
    }
    let mut i: usize = 0;
    while i < children.len()
        invariant
            i <= children.len(),
            cs == kids_of(children@),
            cs.len() == children@.len(),
            forall|j: int| 0 <= j < children@.len() ==> #[trigger] cs[j] == (children@[j].name@, node_view(children@[j].node)),
            first_not_before(cs, name@, 0) == first_not_before(cs, name@, i as int),
        decreases children.len() - i,
    {
        let cn = chars_of(children[i].name.as_str());
        let c = compare_chars(&cn, name);
        if c != -1 {
            assert(cs[i as int].0 == cn@);
            if c == 0 {
                return (i, true);
            } else {
                return (i, false);
            }
        }
        assert(cs[i as int].0 == cn@);
        proof {
            lemma_first_not_before_step(cs, name@, i as int);
        }
        i = i + 1;
    }
    (i, false)
}

/// Records the components `comps[k..]` below `node`.
fn insert_components(node: &mut TreeNode, comps: &Vec<String>, k: usize, leaf_dir: bool, size: Option<u64>)
    requires
        k < comps.len(),
    ensures
        node_view(*final(node)) == insert_path(node_view(*old(node)), views(comps@).skip(k as int), leaf_dir, size),
    decreases comps.len() - k,
{
    let ghost old_kids = kids(*node);
    let ghost cv = views(comps@).skip(k as int);
    proof {
        lemma_kids(*node);
        assert(cv[0] == comps@[k as int]@);
    }
    let name = chars_of(comps[k].as_str());
    let (p, found) = find_slot(&node.children, &name);
    let mut child: TreeChild = if found {
        node.children.remove(p)
    } else {
        TreeChild {
            name: comps[k].clone(),
            node: TreeNode { is_dir: false, size: None, children: Vec::new() },
        }
    };
    let ghost before = node_view(child.node);
    proof {
        lemma_kids(child.node);
        if !found {
            assert(kids(child.node) =~= Seq::<(Seq<char>, TreeView)>::empty());
            assert(before == empty_tree());
        } else {
            assert(before == old_kids[p as int].1);
        }
        assert(before == child_named(old_kids, cv[0]));
    }
    if k + 1 == comps.len() {
        child.node.is_dir = leaf_dir;
        child.node.size = size;
        proof {
            lemma_kids(child.node);
            assert(cv.len() == 1);
        }
    } else {
        child.node.is_dir = true;
        proof {
            lemma_kids(child.node);
            assert(cv.drop_first() =~= views(comps@).skip(k + 1));
        }
        insert_components(&mut child.node, comps, k + 1, leaf_dir, size);
    }
    let ghost cview = (child.name@, node_view(child.node));
    node.children.insert(p, child);
    proof {
        lemma_kids(*node);
        assert(cview.0 == cv[0]);
        if found {
            assert(kids(*node) =~= old_kids.update(p as int, cview));
        } else {
            assert(kids(*node) =~= old_kids.insert(p as int, cview));
        }
    }
}


/// Directory levels shown below the root.
pub const MAX_DEPTH: usize = 3;
/// Listings are read up to this many entries.
pub const MAX_ENTRIES: usize = 1000;
/// A directory with more children than this is shown collapsed.
pub const PER_DIR_COLLAPSE_THRESHOLD: usize = 50;
/// How many children a collapsed directory shows.
pub const PER_DIR_SHOW_LIMIT: usize = 10;

/// The tree of a listing.
pub fn build_tree(entries: &Vec<ArchiveEntry>) -> (t: TreeNode)
    ensures
        node_view(t) == tree_of(views(entries@)),
{
    let mut root = TreeNode { is_dir: false, size: None, children: Vec::new() };
    proof {
        lemma_kids(root);
        assert(kids(root) =~= Seq::<(Seq<char>, TreeView)>::empty());
    }
    let mut i: usize = 0;
    while i < entries.len()
        invariant
            i <= entries.len(),
            node_view(root) == tree_of(views(entries@).take(i as int)),
        decreases entries.len() - i,
    {
        let entry = &entries[i];
        assert(views(entries@).take(i + 1).drop_last() =~= views(entries@).take(i as int));
        assert(views(entries@).take(i + 1).last() == entry@);
        let comps = split_components(entry.path.as_str());
        if comps.len() > 0 {
            let chars = chars_of(entry.path.as_str());
            let leaf_dir = entry.is_dir || (chars.len() > 0 && chars[chars.len() - 1] == '/');
            insert_components(&mut root, &comps, 0, leaf_dir, entry.size);
            assert(views(comps@).skip(0) =~= views(comps@));
        }
        i = i + 1;
    }
    assert(views(entries@).take(entries.len() as int) =~= views(entries@));
    root
}

/// Lines rendered so far and what was left out.
pub struct RenderState {
    pub lines: Seq<Seq<char>>,
    pub depth_truncated: bool,
    pub breadth_collapsed: bool,
}

pub open spec fn branch_text(last: bool) -> Seq<char> {
    if last {
        seq!['└', '─', ' ']
    } else {
        seq!['├', '─', ' ']
    }
}

pub open spec fn connector_text(last: bool) -> Seq<char> {
    if last {
        seq![' ', ' ', ' ']
    } else {
        seq!['│', ' ', ' ']
    }
}

/// How a child is labelled: directories end in `/`, sized files show their size.
pub open spec fn child_label(name: Seq<char>, c: TreeView) -> Seq<char> {
    if c.is_dir {
        name.push('/')
    } else {
        match c.size {
            Some(sz) => name + seq![' ', ' '] + byte_size_text(sz as nat, Seq::empty()),
            None => name,
        }
    }
}

/// The closing line of a collapsed directory.
pub open spec fn more_line(prefix: Seq<char>, hidden: nat) -> Seq<char> {
    prefix + seq!['└', '─', ' ', '…', ' '] + decimal(hidden) + seq![' ', 'm', 'o', 'r', 'e']
}

pub open spec fn with_line(st: RenderState, line: Seq<char>) -> RenderState {
    RenderState { lines: st.lines.push(line), depth_truncated: st.depth_truncated, breadth_collapsed: st.breadth_collapsed }
}

/// Renders the children of `t` at `depth`, stopping once `max + 1` lines exist.
pub open spec fn render_children(t: TreeView, prefix: Seq<char>, depth: nat, max: nat, st: RenderState) -> RenderState
    decreases t, 1int, 0int,
{
    let collapse = t.children.len() > PER_DIR_COLLAPSE_THRESHOLD;
    let st1 = if collapse {
        RenderState { lines: st.lines, depth_truncated: st.depth_truncated, breadth_collapsed: true }
    } else {
        st
    };
    let visible = if collapse { PER_DIR_SHOW_LIMIT as int } else { t.children.len() as int };
    let st2 = render_from(t, prefix, depth, max, collapse, visible, 0, st1);
    if collapse && st2.lines.len() < max + 1 {
        with_line(st2, more_line(prefix, (t.children.len() - PER_DIR_SHOW_LIMIT) as nat))
    } else {
        st2
    }
}

/// Renders the visible children of `t` from position `i` on.
pub open spec fn render_from(
    t: TreeView,
    prefix: Seq<char>,
    depth: nat,
    max: nat,
    collapse: bool,
    visible: int,
    i: int,
    st: RenderState,
) -> RenderState
    decreases t, 0int, visible - i,
{
    if i < 0 || i >= visible || visible > t.children.len() || st.lines.len() >= max + 1 {
        st
    } else {
        let name = t.children[i].0;
        let c = t.children[i].1;
        let last = i + 1 == visible && !collapse;
        let st1 = with_line(st, prefix + branch_text(last) + child_label(name, c));
        let st2 = if c.children.len() == 0 {
            st1
        } else if depth + 1 >= MAX_DEPTH {
            RenderState { lines: st1.lines, depth_truncated: true, breadth_collapsed: st1.breadth_collapsed }
        } else {
            render_children(c, prefix + connector_text(last), depth + 1, max, st1)
        };
        render_from(t, prefix, depth, max, collapse, visible, i + 1, st2)
    }
}


/// Lines being rendered, with the flags of what was left out.
pub struct RenderBuf {
    pub lines: Vec<String>,
    pub depth_truncated: bool,
    pub breadth_collapsed: bool,
}

impl View for RenderBuf {
    type V = RenderState;

    open spec fn view(&self) -> RenderState {
        RenderState {
            lines: views(self.lines@),
            depth_truncated: self.depth_truncated,
            breadth_collapsed: self.breadth_collapsed,
        }
    }
}

fn label_line(prefix: &str, last: bool, name: &str, child: &TreeNode) -> (r: String)
    ensures
        r@ == prefix@ + branch_text(last) + child_label(name@, node_view(*child)),
{
    let mut line = String::new();
    append_str(&mut line, prefix);
    if last {
        push_char(&mut line, '└');
    } else {
        push_char(&mut line, '├');
    }
    push_char(&mut line, '─');
    push_char(&mut line, ' ');
    append_str(&mut line, name);
    if child.is_dir {
        push_char(&mut line, '/');
    } else {
        match child.size {
            Some(sz) => {
                push_char(&mut line, ' ');
                push_char(&mut line, ' ');
                push_byte_size(&mut line, sz, "");
                proof {
                    reveal_strlit("");
                }
            },
            None => {},
        }
    }
    assert(line@ =~= prefix@ + branch_text(last) + child_label(name@, node_view(*child)));
    line
}

fn next_prefix(prefix: &str, last: bool) -> (r: String)
    ensures
        r@ == prefix@ + connector_text(last),
{
    let mut p = String::new();
    append_str(&mut p, prefix);
    if last {
        push_char(&mut p, ' ');
    } else {
        push_char(&mut p, '│');
    }
    push_char(&mut p, ' ');
    push_char(&mut p, ' ');
    assert(p@ =~= prefix@ + connector_text(last));
    p
}

fn more_text(prefix: &str, hidden: usize) -> (r: String)
    ensures
        r@ == more_line(prefix@, hidden as nat),
{
    let mut line = String::new();
    append_str(&mut line, prefix);
    push_char(&mut line, '└');
    push_char(&mut line, '─');
    push_char(&mut line, ' ');
    push_char(&mut line, '…');
    push_char(&mut line, ' ');
    push_decimal(&mut line, hidden as u64);
    push_char(&mut line, ' ');
    push_char(&mut line, 'm');
    push_char(&mut line, 'o');
    push_char(&mut line, 'r');
    push_char(&mut line, 'e');
    assert(line@ =~= more_line(prefix@, hidden as nat));
    line
}

/// Renders the children of `node` into `buf`.
fn render_tree_children(node: &TreeNode, prefix: &str, depth: usize, max_lines: usize, buf: &mut RenderBuf)
    requires
        depth < MAX_DEPTH,
    ensures
        final(buf)@ == render_children(node_view(*node), prefix@, depth as nat, max_lines as nat, old(buf)@),
    decreases node,
{
    let ghost t = node_view(*node);
    proof {
        lemma_kids(*node);
    }
    let n = node.children.len();
    let collapse = n > PER_DIR_COLLAPSE_THRESHOLD;
    if collapse {
        buf.breadth_collapsed = true;
    }
    let visible = if collapse { PER_DIR_SHOW_LIMIT } else { n };
    let ghost st1 = buf@;
    let mut i: usize = 0;
    while i < visible
        invariant
            i <= visible <= n,
            n == node.children@.len(),
            t == node_view(*node),
            t.children == kids(*node),
            kids(*node).len() == n,
            forall|j: int| 0 <= j < n ==> #[trigger] kids(*node)[j] == (node.children@[j].name@, node_view(node.children@[j].node)),
            depth < MAX_DEPTH,
            collapse == (n > PER_DIR_COLLAPSE_THRESHOLD),
            visible == (if collapse { PER_DIR_SHOW_LIMIT } else { n }),
            render_from(t, prefix@, depth as nat, max_lines as nat, collapse, visible as int, 0, st1)
                == render_from(t, prefix@, depth as nat, max_lines as nat, collapse, visible as int, i as int, buf@),
        ensures
            render_from(t, prefix@, depth as nat, max_lines as nat, collapse, visible as int, 0, st1) == buf@,
        decreases visible - i,
    {
        if buf.lines.len() > max_lines {
            break;
        }
        let ghost sti = buf@;
        let child = &node.children[i];
        let last = i + 1 == visible && !collapse;
        let line = label_line(prefix, last, child.name.as_str(), &child.node);
        buf.lines.push(line);
        proof {
            lemma_kids(child.node);
            assert(buf@.lines =~= sti.lines.push(line@));
            assert(t.children[i as int] == (child.name@, node_view(child.node)));
        }
        if child.node.children.len() == 0 {
        } else if depth + 1 >= MAX_DEPTH {
            buf.depth_truncated = true;
        } else {
            let np = next_prefix(prefix, last);
            render_tree_children(&child.node, np.as_str(), depth + 1, max_lines, buf);
        }
        i = i + 1;
    }
    let ghost st2 = buf@;
    if collapse && buf.lines.len() <= max_lines {
        let line = more_text(prefix, n - PER_DIR_SHOW_LIMIT);
        buf.lines.push(line);
        assert(buf@.lines =~= st2.lines.push(line@));
    }
}


/// The preview lines that show the given texts, one unstyled span each.
pub open spec fn plain_lines(texts: Seq<Seq<char>>) -> Seq<Seq<PreviewSpanView>> {
    texts.map_values(|t: Seq<char>| seq![plain_span(trim_end_newlines(t))])
}

/// The tree lines of a listing: `./`, the rendered tree within `max_lines` lines, and a
/// placeholder line when the tree is empty.
pub open spec fn tree_lines(es: Seq<ArchiveEntryView>, max_lines: nat) -> RenderState {
    let st0 = RenderState { lines: seq![seq!['.', '/']], depth_truncated: false, breadth_collapsed: false };
    let budget: nat = if max_lines >= 1 { (max_lines - 1) as nat } else { 0 };
    let st = render_children(tree_of(es), Seq::empty(), 0, budget, st0);
    if st.lines.len() == 1 {
        with_line(st, "（空压缩包）"@)
    } else {
        st
    }
}

/// The tree lines of `entries`, and whether depth or breadth was cut.
pub fn build_tree_lines(entries: &Vec<ArchiveEntry>, max_lines: usize) -> (r: (Vec<PreviewLine>, bool, bool))
    ensures
        views(r.0@) == plain_lines(tree_lines(views(entries@), max_lines as nat).lines),
        r.1 == tree_lines(views(entries@), max_lines as nat).depth_truncated,
        r.2 == tree_lines(views(entries@), max_lines as nat).breadth_collapsed,
{
    let root = build_tree(entries);
    let first = String::from_str("./");
    proof {
        reveal_strlit("./");
        assert(first@ =~= seq!['.', '/']);
    }
    let mut start: Vec<String> = Vec::new();
    start.push(first);
    let mut buf = RenderBuf { lines: start, depth_truncated: false, breadth_collapsed: false };
    assert(buf@.lines =~= seq![seq!['.', '/']]);
    let budget = if max_lines >= 1 { max_lines - 1 } else { 0 };
    proof {
        reveal_strlit("");
        assert(""@ =~= Seq::<char>::empty());
    }
    render_tree_children(&root, "", 0, budget, &mut buf);
    if buf.lines.len() == 1 {
        let ghost before = buf@;
        buf.lines.push(String::from_str("（空压缩包）"));
        assert(buf@.lines =~= before.lines.push("（空压缩包）"@));
    }
    let mut out: Vec<PreviewLine> = Vec::new();
    let mut i: usize = 0;
    while i < buf.lines.len()
        invariant
            i <= buf.lines.len(),
            views(out@) == plain_lines(views(buf.lines@).take(i as int)),
        decreases buf.lines.len() - i,
    {
        let line = PreviewLine::plain(buf.lines[i].as_str());
        let ghost before = out@;
        out.push(line);
        assert(views(out@) =~= views(before).push(line@));
        assert(plain_lines(views(buf.lines@).take(i + 1)) =~= plain_lines(views(buf.lines@).take(i as int)).push(line@));
        i = i + 1;
    }
    assert(views(buf.lines@).take(buf.lines.len() as int) =~= views(buf.lines@));
    (out, buf.depth_truncated, buf.breadth_collapsed)
}


/// Whether `s` ends with `/`.
pub(crate) fn ends_with_slash(s: &str) -> (r: bool)
    ensures
        r == (s@.len() > 0 && s@.last() == '/'),
{
    let chars = chars_of(s);
    chars.len() > 0 && chars[chars.len() - 1] == '/'
}

/// The strings of `v` from position `k` on.
pub(crate) fn tail_from(v: &Vec<String>, k: usize) -> (r: Vec<String>)
    requires
        k <= v.len(),
    ensures
        views(r@) == views(v@).skip(k as int),
{
    let mut r: Vec<String> = Vec::new();
    let mut i: usize = k;
    while i < v.len()
        invariant
            k <= i <= v.len(),
            views(r@) == views(v@).subrange(k as int, i as int),
        decreases v.len() - i,
    {
        let ghost before = r@;
        r.push(v[i].clone());
        assert(views(r@) =~= views(before).push(v@[i as int]@));
        assert(views(v@).subrange(k as int, i + 1) =~= views(v@).subrange(k as int, i as int).push(v@[i as int]@));
        i = i + 1;
    }
    assert(views(v@).subrange(k as int, v.len() as int) =~= views(v@).skip(k as int));
    r
}

/// The entry a `zipinfo -l` member line describes: size in the fourth column, name from the
/// tenth on.
pub open spec fn zip_entry_of(cols: Seq<Seq<char>>) -> ArchiveEntryView {
    let name = join(cols.skip(9), seq![' ']);
    ArchiveEntryView { path: name, size: parse_u64_spec(cols[3]), is_dir: name.len() > 0 && name.last() == '/' }
}

/// Whether a `zipinfo` line is the closing summary.
pub open spec fn is_zip_summary(line: Seq<char>) -> bool {
    contains_seq(line, " files"@) && contains_seq(line, " bytes"@)
}

/// The entries read from the lines at `i` and after, given those read before.
pub open spec fn zip_entries_from(ls: Seq<Seq<char>>, i: int, acc: Seq<ArchiveEntryView>) -> Seq<ArchiveEntryView>
    decreases ls.len() - i,
{
    if i < 0 || i >= ls.len() || acc.len() >= MAX_ENTRIES || is_zip_summary(ls[i]) {
        acc
    } else if text_words(ls[i]).len() < 10 {
        zip_entries_from(ls, i + 1, acc)
    } else {
        zip_entries_from(ls, i + 1, acc.push(zip_entry_of(text_words(ls[i]))))
    }
}

/// The members of a `zipinfo -l` listing: the lines after the three header lines, up to the
/// summary, those with at least ten columns, at most `MAX_ENTRIES` of them.
pub open spec fn zip_entries(out: Seq<char>) -> Seq<ArchiveEntryView> {
    zip_entries_from(text_lines(out), 3, Seq::empty())
}

/// Reads the members of a `zipinfo -l` listing.
pub fn parse_zip_listing(out: &str) -> (r: Vec<ArchiveEntry>)
    ensures
        views(r@) == zip_entries(out@),
{
    let ls = lines_of(out);
    let mut r: Vec<ArchiveEntry> = Vec::new();
    assert(views(r@) =~= Seq::<ArchiveEntryView>::empty());
    let mut i: usize = 3;
    while i < ls.len()
        invariant
            3 <= i,
            zip_entries(out@) == zip_entries_from(views(ls@), i as int, views(r@)),
            views(ls@) == text_lines(out@),
            r.len() < MAX_ENTRIES,
        decreases ls.len() - i,
    {
        let line = ls[i].as_str();
        if str_contains(line, " files") && str_contains(line, " bytes") {
            return r;
        }
        let cols = words_of(line);
        if cols.len() >= 10 {
            let size = parse_u64(cols[3].as_str());
            let rest = tail_from(&cols, 9);
            let name = join_strings(&rest, " ");
            proof {
                reveal_strlit(" ");
                assert(" "@ =~= seq![' ']);
            }
            let is_dir = ends_with_slash(name.as_str());
            let e = ArchiveEntry { path: name, size, is_dir };
            let ghost before = r@;
            r.push(e);
            assert(views(r@) =~= views(before).push(zip_entry_of(views(cols@))));
            if r.len() >= MAX_ENTRIES {
                assert(zip_entries_from(views(ls@), i + 1, views(r@)) == views(r@));
                return r;
            }
        }
        i = i + 1;
    }
    r
}

/// The members of a `tar -tf` listing: one per line, at most `MAX_ENTRIES`, without sizes.
pub open spec fn tar_entries(out: Seq<char>) -> Seq<ArchiveEntryView> {
    let ls = text_lines(out);
    let n = if ls.len() < MAX_ENTRIES { ls.len() as int } else { MAX_ENTRIES as int };
    Seq::new(n as nat, |i: int| ArchiveEntryView { path: ls[i], size: None, is_dir: ls[i].len() > 0 && ls[i].last() == '/' })
}

/// Reads the members of a `tar -tf` listing.
pub fn parse_tar_listing(out: &str) -> (r: Vec<ArchiveEntry>)
    ensures
        views(r@) == tar_entries(out@),
{
    let ls = lines_of(out);
    let n = if ls.len() < MAX_ENTRIES { ls.len() } else { MAX_ENTRIES };
    let mut r: Vec<ArchiveEntry> = Vec::new();
    let mut i: usize = 0;
    while i < n
        invariant
            i <= n <= ls.len(),
            n == (if ls.len() < MAX_ENTRIES { ls.len() } else { MAX_ENTRIES }),
            views(ls@) == text_lines(out@),
            views(r@) == tar_entries(out@).take(i as int),
        decreases n - i,
    {
        let is_dir = ends_with_slash(ls[i].as_str());
        let e = ArchiveEntry { path: ls[i].clone(), size: None, is_dir };
        let ghost before = r@;
        r.push(e);
        assert(tar_entries(out@)[i as int] == e@);
        assert(views(r@) =~= views(before).push(e@));
        assert(tar_entries(out@).take(i + 1) =~= tar_entries(out@).take(i as int).push(e@));
        i = i + 1;
    }
    assert(tar_entries(out@).take(n as int) =~= tar_entries(out@));
    r
}

/// The entries read from the `7z l` lines at `i` and after: lines with a space, not a rule,
/// with at least six columns and a size in the fourth; the name from the sixth column on.
pub open spec fn sevenz_entries_from(ls: Seq<Seq<char>>, i: int, acc: Seq<ArchiveEntryView>) -> Seq<ArchiveEntryView>
    decreases ls.len() - i,
{
    if i < 0 || i >= ls.len() || acc.len() >= MAX_ENTRIES {
        acc
    } else if !contains_seq(ls[i], seq![' ']) || starts_with(ls[i], "----"@) || text_words(ls[i]).len() < 6 {
        sevenz_entries_from(ls, i + 1, acc)
    } else {
        match parse_u64_spec(text_words(ls[i])[3]) {
            Some(sz) => sevenz_entries_from(
                ls,
                i + 1,
                acc.push(ArchiveEntryView { path: join(text_words(ls[i]).skip(5), seq![' ']), size: Some(sz), is_dir: false }),
            ),
            None => sevenz_entries_from(ls, i + 1, acc),
        }
    }
}

pub open spec fn sevenz_entries(out: Seq<char>) -> Seq<ArchiveEntryView> {
    sevenz_entries_from(text_lines(out), 0, Seq::empty())
}

/// Reads the members of a `7z l` listing.
pub fn parse_7z_listing(out: &str) -> (r: Vec<ArchiveEntry>)
    ensures
        views(r@) == sevenz_entries(out@),
{
    let ls = lines_of(out);
    let mut r: Vec<ArchiveEntry> = Vec::new();
    assert(views(r@) =~= Seq::<ArchiveEntryView>::empty());
    let mut i: usize = 0;
    proof {
        reveal_strlit(" ");
        assert(" "@ =~= seq![' ']);
    }
    while i < ls.len()
        invariant
            sevenz_entries(out@) == sevenz_entries_from(views(ls@), i as int, views(r@)),
            views(ls@) == text_lines(out@),
            r.len() < MAX_ENTRIES,
            " "@ == seq![' '],
        decreases ls.len() - i,
    {
        let line = ls[i].as_str();
        if str_contains(line, " ") && !str_starts_with(line, "----") {
            let cols = words_of(line);
            if cols.len() >= 6 {
                match parse_u64(cols[3].as_str()) {
                    Some(sz) => {
                        let rest = tail_from(&cols, 5);
                        let name = join_strings(&rest, " ");
                        let ghost before = r@;
                        r.push(ArchiveEntry { path: name, size: Some(sz), is_dir: false });
                        assert(views(r@) =~= views(before).push(
                            ArchiveEntryView { path: join(views(cols@).skip(5), seq![' ']), size: Some(sz), is_dir: false },
                        ));
                        if r.len() >= MAX_ENTRIES {
                            assert(sevenz_entries_from(views(ls@), i + 1, views(r@)) == views(r@));
                            return r;
                        }
                    },
                    None => {},
                }
            }
        }
        i = i + 1;
    }
    r
}


/// A listing turned into tree lines, with totals and warnings.
#[derive(Debug)]
pub struct ArchivePreviewData {
    pub format: String,
    pub total_entries: usize,
    pub total_size: Option<u64>,
    pub lines: Vec<PreviewLine>,
    pub warnings: Vec<String>,
}

pub struct ArchivePreviewView {
    pub format: Seq<char>,
    pub total_entries: usize,
    pub total_size: Option<u64>,
    pub lines: Seq<Seq<PreviewSpanView>>,
    pub warnings: Seq<Seq<char>>,
}

impl View for ArchivePreviewData {
    type V = ArchivePreviewView;

    open spec fn view(&self) -> ArchivePreviewView {
        ArchivePreviewView {
            format: self.format@,
            total_entries: self.total_entries,
            total_size: self.total_size,
            lines: views(self.lines@),
            warnings: views(self.warnings@),
        }
    }
}

/// The sum of the known sizes.
pub open spec fn size_sum(es: Seq<ArchiveEntryView>) -> nat
    decreases es.len(),
{
    if es.len() == 0 {
        0
    } else {
        size_sum(es.drop_last()) + match es.last().size {
            Some(sz) => sz as nat,
            None => 0,
        }
    }
}

/// The warnings of a preview: listing cut at `MAX_ENTRIES`, depth cut, breadth collapsed.
pub open spec fn archive_warnings(total: nat, depth_truncated: bool, breadth_collapsed: bool) -> Seq<Seq<char>> {
    (if total >= MAX_ENTRIES { seq!["仅展示前 1000 条压缩包条目"@] } else { Seq::empty() })
        + (if depth_truncated { seq!["树形预览最多展开 3 层"@] } else { Seq::empty() })
        + (if breadth_collapsed { seq!["单层目录超过 50 条时，仅展示前 10 条"@] } else { Seq::empty() })
}

/// The preview of a listing: its tree lines within `max_lines`, the entry count, the total
/// size where the format lists sizes, and the warnings.
pub open spec fn archive_preview_spec(format: Seq<char>, es: Seq<ArchiveEntryView>, max_lines: nat, has_sizes: bool) -> ArchivePreviewView {
    let tl = tree_lines(es, max_lines);
    ArchivePreviewView {
        format,
        total_entries: es.len() as usize,
        total_size: if has_sizes { Some(size_sum(es) as u64) } else { None },
        lines: plain_lines(tl.lines),
        warnings: archive_warnings(es.len(), tl.depth_truncated, tl.breadth_collapsed),
    }
}

/// The sum of the known sizes of `entries`, if it fits in a `u64`.
fn total_size_of(entries: &Vec<ArchiveEntry>) -> (r: Option<u64>)
    ensures
        r == (if size_sum(views(entries@)) <= u64::MAX { Some(size_sum(views(entries@)) as u64) } else { None::<u64> }),
{
    let mut total: u64 = 0;
    let mut i: usize = 0;
    while i < entries.len()
        invariant
            i <= entries.len(),
            total == size_sum(views(entries@).take(i as int)),
        decreases entries.len() - i,
    {
        assert(views(entries@).take(i + 1).drop_last() =~= views(entries@).take(i as int));
        let add: u64 = match entries[i].size {
            Some(sz) => sz,
            None => 0,
        };
        assert(size_sum(views(entries@).take(i + 1)) == total + add);
        if total > u64::MAX - add {
            proof {
                lemma_size_sum_prefix(views(entries@), i + 1);
            }
            return None;
        }
        total = total + add;
        i = i + 1;
    }
    assert(views(entries@).take(entries.len() as int) =~= views(entries@));
    Some(total)
}

proof fn lemma_size_sum_prefix(es: Seq<ArchiveEntryView>, k: int)
    requires
        0 <= k <= es.len(),
    ensures
        size_sum(es.take(k)) <= size_sum(es),
    decreases es.len() - k,
{
    if k < es.len() {
        lemma_size_sum_prefix(es, k + 1);
        assert(es.take(k + 1).drop_last() =~= es.take(k));
    } else {
        assert(es.take(k) =~= es);
    }
}

/// Builds the preview of a listing. Where sizes are summed, their total must fit in a `u64`.
pub fn build_archive_preview(format: String, entries: Vec<ArchiveEntry>, max_lines: usize, has_sizes: bool) -> (r: ArchivePreviewData)
    requires
        has_sizes ==> size_sum(views(entries@)) <= u64::MAX,
    ensures
        r@ == archive_preview_spec(format@, views(entries@), max_lines as nat, has_sizes),
{
    let total_entries = entries.len();
    let total_size = if has_sizes { total_size_of(&entries) } else { None };
    let (lines, depth_truncated, breadth_collapsed) = build_tree_lines(&entries, max_lines);
    let mut warnings: Vec<String> = Vec::new();
    let ghost w0 = views(warnings@);
    assert(w0 =~= Seq::<Seq<char>>::empty());
    if total_entries >= MAX_ENTRIES {
        warnings.push(String::from_str("仅展示前 1000 条压缩包条目"));
    }
    let ghost w1 = views(warnings@);
    assert(w1 =~= (if total_entries >= MAX_ENTRIES { seq!["仅展示前 1000 条压缩包条目"@] } else { Seq::empty() }));
    if depth_truncated {
        warnings.push(String::from_str("树形预览最多展开 3 层"));
    }
    let ghost w2 = views(warnings@);
    assert(w2 =~= w1 + (if depth_truncated { seq!["树形预览最多展开 3 层"@] } else { Seq::empty() }));
    if breadth_collapsed {
        warnings.push(String::from_str("单层目录超过 50 条时，仅展示前 10 条"));
    }
    assert(views(warnings@) =~= w2 + (if breadth_collapsed { seq!["单层目录超过 50 条时，仅展示前 10 条"@] } else { Seq::empty() }));
    ArchivePreviewData { format, total_entries, total_size, lines, warnings }
}

/// A size as `NB`, `x.yKB`, `x.yMB` or `x.yGB`.
pub fn format_size(size: u64) -> (r: String)
    ensures
        r@ == byte_size_text(size as nat, Seq::empty()),
{
    let mut s = String::new();
    push_byte_size(&mut s, size, "");
    proof {
        reveal_strlit("");
        assert(""@ =~= Seq::<char>::empty());
        assert(s@ =~= byte_size_text(size as nat, Seq::empty()));
    }
    s
}

/// What a preview is titled: the file name, or the whole path where it has none.
pub open spec fn title_spec(path: Seq<char>) -> Seq<char> {
    match path_file_name_spec(path) {
        Some(name) => name,
        None => path,
    }
}

pub fn title_for(path: &str) -> (r: String)
    ensures
        r@ == title_spec(path@),
{
    match path_file_name(path) {
        Some(name) => name,
        None => String::from_str(path),
    }
}

/// The listing tools an archive can be read with.
#[derive(Debug, Clone, Copy, PartialEq, Eq, Structural)]
pub enum ArchiveFormat {
    Zip,
    Tar,
    SevenZ,
}

/// The listing format for a path, by its extension in any case: `zip`; `tar`, `gz` or
/// `tgz`; `7z`.
pub open spec fn archive_format_spec(path: Seq<char>) -> Option<ArchiveFormat> {
    let ext = match path_extension_spec(path) {
        Some(e) => ascii_lower(e),
        None => Seq::empty(),
    };
    if ext == "zip"@ {
        Some(ArchiveFormat::Zip)
    } else if ext == "tar"@ || ext == "gz"@ || ext == "tgz"@ {
        Some(ArchiveFormat::Tar)
    } else if ext == "7z"@ {
        Some(ArchiveFormat::SevenZ)
    } else {
        None
    }
}

pub fn archive_format(path: &str) -> (r: Option<ArchiveFormat>)
    ensures
        r == archive_format_spec(path@),
{
    let ext = match path_extension(path) {
        Some(e) => to_ascii_lowercase(e.as_str()),
        None => String::new(),
    };
    let e = ext.as_str();
    if crate::text::str_eq(e, "zip") {
        Some(ArchiveFormat::Zip)
    } else if crate::text::str_eq(e, "tar") || crate::text::str_eq(e, "gz") || crate::text::str_eq(e, "tgz") {
        Some(ArchiveFormat::Tar)
    } else if crate::text::str_eq(e, "7z") {
        Some(ArchiveFormat::SevenZ)
    } else {
        None
    }
}

/// The entries a listing of the given format holds.
pub open spec fn listing_entries(format: ArchiveFormat, out: Seq<char>) -> Seq<ArchiveEntryView> {
    match format {
        ArchiveFormat::Zip => zip_entries(out),
        ArchiveFormat::Tar => tar_entries(out),
        ArchiveFormat::SevenZ => sevenz_entries(out),
    }
}

pub open spec fn format_name(format: ArchiveFormat) -> Seq<char> {
    match format {
        ArchiveFormat::Zip => "ZIP"@,
        ArchiveFormat::Tar => "TAR"@,
        ArchiveFormat::SevenZ => "7Z"@,
    }
}

pub open spec fn lists_sizes(format: ArchiveFormat) -> bool {
    format != ArchiveFormat::Tar
}

/// The preview of a listing tool's output; `None` where the listed sizes add up past what a
/// `u64` holds.
pub fn preview_listing(format: ArchiveFormat, out: &str, max_lines: usize) -> (r: Option<ArchivePreviewData>)
    ensures
        match r {
            Some(d) => d@ == archive_preview_spec(format_name(format), listing_entries(format, out@), max_lines as nat, lists_sizes(format)),
            None => lists_sizes(format) && size_sum(listing_entries(format, out@)) > u64::MAX,
        },
{
    let (name, entries) = match format {
        ArchiveFormat::Zip => (String::from_str("ZIP"), parse_zip_listing(out)),
        ArchiveFormat::Tar => (String::from_str("TAR"), parse_tar_listing(out)),
        ArchiveFormat::SevenZ => (String::from_str("7Z"), parse_7z_listing(out)),
    };
    let has_sizes = match format {
        ArchiveFormat::Tar => false,
        _ => true,
    };
    if has_sizes {
        match total_size_of(&entries) {
            None => return None,
            Some(_) => {},
        }
    }
    Some(build_archive_preview(name, entries, max_lines, has_sizes))
}


/// The metadata rows of an archive preview.
pub open spec fn archive_metadata(v: ArchivePreviewView) -> Seq<(Seq<char>, Seq<char>)> {
    seq![("格式"@, v.format), ("条目"@, crate::text::decimal(v.total_entries as nat))] + match v.total_size {
        Some(total) => seq![("总大小"@, byte_size_text(total as nat, Seq::empty()))],
        None => Seq::empty(),
    }
}

/// The preview result of an archive at `path`.
pub open spec fn archive_result_spec(path: Seq<char>, v: ArchivePreviewView) -> PreviewDocView {
    PreviewDocView {
        kind: PreviewKind::Archive,
        title: title_spec(path),
        subtitle: Some(path),
        provider_name: "压缩包"@,
        degraded: v.warnings.len() > 0,
        metadata: archive_metadata(v),
        warnings: v.warnings,
        actions: seq!["o：外部打开"@],
        wrap_mode: PreviewWrapMode::NoWrap,
        lines: v.lines,
        first_line_number: 1,
    }
}

/// Presents a listing preview as the preview of the archive at `path`.
pub fn archive_preview_result(path: &str, preview: ArchivePreviewData) -> (r: PreviewResult)
    ensures
        r@ == archive_result_spec(path@, preview@),
{
    let ghost v = preview@;
    let mut metadata: Vec<(String, String)> = Vec::new();
    metadata.push((String::from_str("格式"), preview.format));
    metadata.push((String::from_str("条目"), decimal_string(preview.total_entries as u64)));
    match preview.total_size {
        Some(total) => metadata.push((String::from_str("总大小"), format_size(total))),
        None => {},
    }
    assert(views(metadata@) =~= archive_metadata(v));
    let degraded = preview.warnings.len() > 0;
    let mut actions: Vec<String> = Vec::new();
    actions.push(String::from_str("o：外部打开"));
    assert(views(actions@) =~= seq!["o：外部打开"@]);
    PreviewResult {
        kind: PreviewKind::Archive,
        title: title_for(path),
        subtitle: Some(String::from_str(path)),
        provider_name: String::from_str("压缩包"),
        degraded,
        metadata,
        warnings: preview.warnings,
        actions,
        wrap_mode: PreviewWrapMode::NoWrap,
        lines: preview.lines,
        first_line_number: 1,
    }
}


proof fn lemma_render_children_bound(t: TreeView, prefix: Seq<char>, depth: nat, max: nat, st: RenderState)
    requires
        st.lines.len() <= max + 1,
    ensures
        render_children(t, prefix, depth, max, st).lines.len() <= max + 1,
    decreases t, 1int, 0int,
{
    let collapse = t.children.len() > PER_DIR_COLLAPSE_THRESHOLD;
    let st1 = if collapse {
        RenderState { lines: st.lines, depth_truncated: st.depth_truncated, breadth_collapsed: true }
    } else {
        st
    };
    let visible = if collapse { PER_DIR_SHOW_LIMIT as int } else { t.children.len() as int };
    lemma_render_from_bound(t, prefix, depth, max, collapse, visible, 0, st1);
}

proof fn lemma_render_from_bound(
    t: TreeView,
    prefix: Seq<char>,
    depth: nat,
    max: nat,
    collapse: bool,
    visible: int,
    i: int,
    st: RenderState,
)
    requires
        st.lines.len() <= max + 1,
    ensures
        render_from(t, prefix, depth, max, collapse, visible, i, st).lines.len() <= max + 1,
    decreases t, 0int, visible - i,
{
    if i < 0 || i >= visible || visible > t.children.len() || st.lines.len() >= max + 1 {
    } else {
        let name = t.children[i].0;
        let c = t.children[i].1;
        let last = i + 1 == visible && !collapse;
        let st1 = with_line(st, prefix + branch_text(last) + child_label(name, c));
        if c.children.len() == 0 {
            lemma_render_from_bound(t, prefix, depth, max, collapse, visible, i + 1, st1);
        } else if depth + 1 >= MAX_DEPTH {
            let st2 = RenderState { lines: st1.lines, depth_truncated: true, breadth_collapsed: st1.breadth_collapsed };
            lemma_render_from_bound(t, prefix, depth, max, collapse, visible, i + 1, st2);
        } else {
            assert(decreases_to!(t => c)) by {
                assert(decreases_to!(t.children => t.children[i]));
            }
            lemma_render_children_bound(c, prefix + connector_text(last), depth + 1, max, st1);
            let st2 = render_children(c, prefix + connector_text(last), depth + 1, max, st1);
            lemma_render_from_bound(t, prefix, depth, max, collapse, visible, i + 1, st2);
        }
    }
}

/// A tree preview never holds more lines than `max_lines`, or two where `max_lines` is
/// smaller: the `./` line and one more.
pub proof fn tree_lines_fit(es: Seq<ArchiveEntryView>, max_lines: nat)
    ensures
        tree_lines(es, max_lines).lines.len() <= (if max_lines >= 2 { max_lines } else { 2 }),
{
    let st0 = RenderState { lines: seq![seq!['.', '/']], depth_truncated: false, breadth_collapsed: false };
    let budget: nat = if max_lines >= 1 { (max_lines - 1) as nat } else { 0 };
    lemma_render_children_bound(tree_of(es), Seq::empty(), 0, budget, st0);
}

} // verus!
