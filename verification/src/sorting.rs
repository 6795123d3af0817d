//! Stable ordering of items by composite keys.
use vstd::prelude::*;

verus! {

/// Lexicographic order on character sequences by code point; a proper prefix comes first.
/// This is the order of `String`'s `Ord` (UTF-8 byte order agrees with code point order).
pub open spec fn seq_lt(x: Seq<char>, y: Seq<char>) -> bool
    decreases x.len(),
{
    if x.len() == 0 {
        y.len() > 0
    } else if y.len() == 0 {
        false
    } else if (x[0] as int) < (y[0] as int) {
        true
    } else if (x[0] as int) > (y[0] as int) {
        false
    } else {
        seq_lt(x.drop_first(), y.drop_first())
    }
}

pub proof fn lemma_seq_lt_irrefl(x: Seq<char>)
    ensures
        !seq_lt(x, x),
    decreases x.len(),
{
    if x.len() > 0 {
        lemma_seq_lt_irrefl(x.drop_first());
    }
}

pub proof fn lemma_seq_lt_total(x: Seq<char>, y: Seq<char>)
    ensures
        seq_lt(x, y) || x == y || seq_lt(y, x),
        !(seq_lt(x, y) && seq_lt(y, x)),
    decreases x.len(),
{
    if x.len() > 0 && y.len() > 0 {
        lemma_seq_lt_total(x.drop_first(), y.drop_first());
        if x[0] == y[0] && x.drop_first() == y.drop_first() {
            assert(x =~= seq![x[0]] + x.drop_first());
            assert(y =~= seq![y[0]] + y.drop_first());
        }
        if (x[0] as int) == (y[0] as int) {
            assert(x[0] == y[0]);
        }
    } else if x.len() == 0 && y.len() == 0 {
        assert(x =~= y);
    }
}

pub proof fn lemma_seq_lt_trans(x: Seq<char>, y: Seq<char>, z: Seq<char>)
    requires
        seq_lt(x, y),
        seq_lt(y, z),
    ensures
        seq_lt(x, z),
    decreases x.len(),
{
    if x.len() > 0 && y.len() > 0 && z.len() > 0 {
        if x[0] == y[0] && y[0] == z[0] {
            lemma_seq_lt_trans(x.drop_first(), y.drop_first(), z.drop_first());
        }
    }
}

/// If two sequences agree on their first `i` characters, comparing them is comparing what follows.
pub proof fn lemma_seq_lt_skip(x: Seq<char>, y: Seq<char>, i: int)
    requires
        0 <= i <= x.len(),
        i <= y.len(),
        x.take(i) == y.take(i),
    ensures
        seq_lt(x, y) == seq_lt(x.skip(i), y.skip(i)),
    decreases i,
{
    if i > 0 {
        assert(x[0] == x.take(i)[0]);
        assert(y[0] == y.take(i)[0]);
        assert(x.drop_first().take(i - 1) =~= x.take(i).drop_first());
        assert(y.drop_first().take(i - 1) =~= y.take(i).drop_first());
        lemma_seq_lt_skip(x.drop_first(), y.drop_first(), i - 1);
        assert(x.drop_first().skip(i - 1) =~= x.skip(i));
        assert(y.drop_first().skip(i - 1) =~= y.skip(i));
    } else {
        assert(x.skip(0) =~= x);
        assert(y.skip(0) =~= y);
    }
}

/// Compares two character sequences: -1, 0 or 1.
pub fn compare_chars(x: &Vec<char>, y: &Vec<char>) -> (r: i8)
    ensures
        r == -1 <==> seq_lt(x@, y@),
        r == 0 <==> x@ == y@,
        r == 1 <==> seq_lt(y@, x@),
        r == -1 || r == 0 || r == 1,
{
    let mut i: usize = 0;
    while i < x.len() && i < y.len()
        invariant
            i <= x.len(),
            i <= y.len(),
            x@.take(i as int) == y@.take(i as int),
        decreases x.len() - i,
    {
        if x[i] < y[i] {
            proof {
                lemma_seq_lt_skip(x@, y@, i as int);
                lemma_seq_lt_total(x@, y@);
                assert(x@.skip(i as int)[0] == x@[i as int]);
                assert(y@.skip(i as int)[0] == y@[i as int]);
            }
            return -1;
        }
        if x[i] > y[i] {
            proof {
                lemma_seq_lt_skip(x@, y@, i as int);
                lemma_seq_lt_skip(y@, x@, i as int);
                lemma_seq_lt_total(x@, y@);
                assert(x@.skip(i as int)[0] == x@[i as int]);
                assert(y@.skip(i as int)[0] == y@[i as int]);
                assert(x@.take(i + 1)[i as int] != y@.take(i + 1)[i as int]);
            }
            return 1;
        }
        assert(x@[i as int] == y@[i as int]);
        assert(x@.take(i + 1) =~= x@.take(i as int).push(x@[i as int]));
        assert(y@.take(i + 1) =~= y@.take(i as int).push(y@[i as int]));
        i = i + 1;
    }
    proof {
        lemma_seq_lt_skip(x@, y@, i as int);
        lemma_seq_lt_skip(y@, x@, i as int);
        lemma_seq_lt_total(x@, y@);
    }
    if x.len() == y.len() {
        assert(x@ =~= x@.take(i as int));
        assert(y@ =~= y@.take(i as int));
        0
    } else if i == x.len() {
        assert(x@.skip(i as int).len() == 0);
        -1
    } else {
        assert(y@.skip(i as int).len() == 0);
        1
    }
}

/// A composite sort key: two small ranks, a number and a name, compared in that order.
#[derive(Debug, Clone)]
pub struct SortKey {
    pub rank: u8,
    pub sub_rank: u8,
    pub number: u64,
    pub name: Vec<char>,
}

pub struct SortKeyView {
    pub rank: u8,
    pub sub_rank: u8,
    pub number: u64,
    pub name: Seq<char>,
}

impl View for SortKey {
    type V = SortKeyView;

    open spec fn view(&self) -> SortKeyView {
        SortKeyView { rank: self.rank, sub_rank: self.sub_rank, number: self.number, name: self.name@ }
    }
}

/// The strict order on sort keys.
pub open spec fn key_lt(a: SortKeyView, b: SortKeyView) -> bool {
    a.rank < b.rank || (a.rank == b.rank && (a.sub_rank < b.sub_rank || (a.sub_rank == b.sub_rank
        && (a.number < b.number || (a.number == b.number && seq_lt(a.name, b.name))))))
}

pub proof fn lemma_key_total(a: SortKeyView, b: SortKeyView)
    ensures
        key_lt(a, b) || a == b || key_lt(b, a),
        !(key_lt(a, b) && key_lt(b, a)),
        !key_lt(a, a),
{
    lemma_seq_lt_total(a.name, b.name);
    lemma_seq_lt_irrefl(a.name);
}

pub proof fn lemma_key_trans(a: SortKeyView, b: SortKeyView, c: SortKeyView)
    requires
        key_lt(a, b),
        key_lt(b, c),
    ensures
        key_lt(a, c),
{
    if a.rank == b.rank && b.rank == c.rank && a.sub_rank == b.sub_rank && b.sub_rank == c.sub_rank
        && a.number == b.number && b.number == c.number {
        lemma_seq_lt_trans(a.name, b.name, c.name);
    }
}

/// Whether `a` orders before `b`.
pub fn key_less(a: &SortKey, b: &SortKey) -> (r: bool)
    ensures
        r == key_lt(a@, b@),
{
    if a.rank != b.rank {
        return a.rank < b.rank;
    }
    if a.sub_rank != b.sub_rank {
        return a.sub_rank < b.sub_rank;
    }
    if a.number != b.number {
        return a.number < b.number;
    }
    compare_chars(&a.name, &b.name) == -1
}

/// The order in which a stable sort places the items with keys `keys`:
/// keys ascending, and equal keys in their original order.
pub open spec fn stably_ordered(keys: Seq<SortKeyView>, order: Seq<usize>) -> bool {
    &&& order.len() == keys.len()
    &&& forall|k: int| 0 <= k < order.len() ==> order[k] < keys.len()
    &&& forall|i: int, j: int|
        0 <= i < j < order.len() ==> key_lt(keys[order[i] as int], keys[order[j] as int]) || (
        keys[order[i] as int] == keys[order[j] as int] && order[i] < order[j])
}

/// The positions of `keys` in stable sorted order.
pub fn stable_order(keys: &Vec<SortKey>) -> (order: Vec<usize>)
    ensures
        stably_ordered(keys@.map_values(|k: SortKey| k@), order@),
{
    let ghost kv = keys@.map_values(|k: SortKey| k@);
    let mut order: Vec<usize> = Vec::new();
    let mut i: usize = 0;
    while i < keys.len()
        invariant
            i <= keys.len(),
            kv == keys@.map_values(|k: SortKey| k@),
            order.len() == i,
            forall|k: int| 0 <= k < order.len() ==> order[k] < i,
            forall|a: int, b: int|
                0 <= a < b < order.len() ==> key_lt(kv[order[a] as int], kv[order[b] as int]) || (
                kv[order[a] as int] == kv[order[b] as int] && order[a] < order[b]),
        decreases keys.len() - i,
    {
        let mut j: usize = i;
        while j > 0 && key_less(&keys[i], &keys[order[j - 1]])
            invariant
                0 <= j <= i < keys.len(),
                kv == keys@.map_values(|k: SortKey| k@),
                order.len() == i,
                forall|k: int| 0 <= k < order.len() ==> order[k] < i,
                forall|t: int| j <= t < i ==> key_lt(kv[i as int], kv[order[t] as int]),
            decreases j,
        {
            j = j - 1;
        }
        let ghost before = order@;
        order.insert(j, i);
        proof {
            assert forall|a: int, b: int| 0 <= a < b < order.len() implies key_lt(
                kv[order[a] as int],
                kv[order[b] as int],
            ) || (kv[order[a] as int] == kv[order[b] as int] && order[a] < order[b]) by {
                if a < j && b < j {
                    assert(order[a] == before[a] && order[b] == before[b]);
                } else if a > j && b > j {
                    assert(order[a] == before[a - 1] && order[b] == before[b - 1]);
                } else if a == j {
                    assert(order[b] == before[b - 1]);
                    lemma_key_total(kv[i as int], kv[before[b - 1] as int]);
                } else if b == j {
                    assert(order[a] == before[a]);
                    let last = before[j - 1];
                    lemma_key_total(kv[i as int], kv[last as int]);
                    lemma_key_total(kv[before[a] as int], kv[last as int]);
                    if a < j - 1 {
                        if key_lt(kv[before[a] as int], kv[last as int]) && key_lt(kv[last as int], kv[i as int]) {
                            lemma_key_trans(kv[before[a] as int], kv[last as int], kv[i as int]);
                        }
                    }
                } else {
                    assert(order[a] == before[a]);
                    assert(order[b] == before[b - 1]);
                    if b - 1 > a {
                    } else {
                    }
                }
            }
        }
        i = i + 1;
    }
    order
}

} // verus!
