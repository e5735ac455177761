use vstd::prelude::*;
use vstd::utf8::encode_utf8;
use crate::sys_info::{state_code, ProcessInfo, ProcessSort};

verus! {

/// Lexicographic comparison of integer sequences: -1, 0 or 1.
pub open spec fn lex_cmp(a: Seq<int>, b: Seq<int>) -> int
    decreases a.len(),
{
    if a.len() == 0 {
        if b.len() == 0 {
            0
        } else {
            -1
        }
    } else if b.len() == 0 {
        1
    } else if a[0] < b[0] {
        -1
    } else if a[0] > b[0] {
        1
    } else {
        lex_cmp(a.drop_first(), b.drop_first())
    }
}

/// Comparison in the chosen direction: ascending, or descending when
/// `descending` holds.
pub open spec fn ord_cmp(a: Seq<int>, b: Seq<int>, descending: bool) -> int {
    if descending {
        lex_cmp(b, a)
    } else {
        lex_cmp(a, b)
    }
}

/// `a` is placed strictly before `b` in the chosen direction.
pub open spec fn precedes(a: Seq<int>, b: Seq<int>, descending: bool) -> bool {
    ord_cmp(a, b, descending) < 0
}

/// A byte string as a key.
pub open spec fn bytes_key(s: Seq<u8>) -> Seq<int> {
    s.map_values(|b: u8| b as int)
}

/// The value that a column orders a process by. Numbers are one-element
/// keys; names and users are compared byte by byte in UTF-8, which is the
/// order of their code points.
pub open spec fn sort_key(p: ProcessInfo, sort: ProcessSort) -> Seq<int> {
    match sort {
        ProcessSort::Pid => seq![p.pid as int],
        ProcessSort::Name => bytes_key(encode_utf8(p.name@)),
        ProcessSort::Cpu => seq![p.cpu_usage as int],
        ProcessSort::Memory => seq![p.memory_usage as int],
        ProcessSort::User => bytes_key(encode_utf8(p.user@)),
        ProcessSort::Time => seq![p.uptime as int],
        ProcessSort::Threads => seq![p.threads as int],
        ProcessSort::State => seq![state_code(p.state) as u32 as int],
    }
}

/// `perm` lists each index below `n` exactly once.
pub open spec fn is_index_permutation(perm: Seq<int>, n: nat) -> bool {
    &&& perm.len() == n
    &&& forall|k: int| 0 <= k < n ==> 0 <= #[trigger] perm[k] < n
    &&& forall|a: int, b: int| 0 <= a < b < n ==> #[trigger] perm[a] != #[trigger] perm[b]
}

/// `r` is `s` rearranged by `perm` (position `k` of `r` holds position
/// `perm[k]` of `s`), ordered by the column in the chosen direction, with
/// processes of equal key in their order in `s`.
pub open spec fn ordered_stably(
    s: Seq<ProcessInfo>,
    r: Seq<ProcessInfo>,
    perm: Seq<int>,
    sort: ProcessSort,
    descending: bool,
) -> bool {
    &&& r.len() == s.len()
    &&& is_index_permutation(perm, s.len())
    &&& forall|k: int| 0 <= k < r.len() ==> #[trigger] r[k] == s[perm[k]]
    &&& forall|a: int, b: int|
        0 <= a < b < r.len() ==> !precedes(
            sort_key(#[trigger] r[b], sort),
            sort_key(#[trigger] r[a], sort),
            descending,
        )
    &&& forall|a: int, b: int|
        0 <= a < b < r.len() && lex_cmp(sort_key(#[trigger] r[a], sort), sort_key(#[trigger] r[b], sort))
            == 0 ==> perm[a] < perm[b]
}

/// `r` is the stable sort of `s` by the column in the chosen direction.
pub open spec fn is_stable_sort(
    s: Seq<ProcessInfo>,
    r: Seq<ProcessInfo>,
    sort: ProcessSort,
    descending: bool,
) -> bool {
    exists|perm: Seq<int>| ordered_stably(s, r, perm, sort, descending)
}

proof fn lemma_lex_antisym(a: Seq<int>, b: Seq<int>)
    ensures
        lex_cmp(a, b) == -lex_cmp(b, a),
    decreases a.len(),
{
    if a.len() > 0 && b.len() > 0 && a[0] == b[0] {
        lemma_lex_antisym(a.drop_first(), b.drop_first());
    }
}

proof fn lemma_lex_trans(a: Seq<int>, b: Seq<int>, c: Seq<int>)
    ensures
        lex_cmp(a, b) <= 0 && lex_cmp(b, c) <= 0 ==> lex_cmp(a, c) <= 0,
    decreases a.len(),
{
    if a.len() > 0 && b.len() > 0 && c.len() > 0 && a[0] == b[0] && b[0] == c[0] {
        lemma_lex_trans(a.drop_first(), b.drop_first(), c.drop_first());
    }
}

/// Two one-element keys compare as their elements do.
pub proof fn lemma_lex_single(x: int, y: int)
    ensures
        lex_cmp(seq![x], seq![y]) == (if x < y {
            -1int
        } else if x > y {
            1int
        } else {
            0int
        }),
{
    let a = seq![x];
    let b = seq![y];
    if x == y {
        assert(a.drop_first() =~= Seq::<int>::empty());
        assert(b.drop_first() =~= Seq::<int>::empty());
        assert(lex_cmp(a.drop_first(), b.drop_first()) == 0);
    }
}

proof fn lemma_ord_facts(a: Seq<int>, b: Seq<int>, c: Seq<int>, descending: bool)
    ensures
        ord_cmp(a, b, descending) == -ord_cmp(b, a, descending),
        ord_cmp(a, b, descending) <= 0 && ord_cmp(b, c, descending) <= 0 ==> ord_cmp(
            a,
            c,
            descending,
        ) <= 0,
        ord_cmp(a, b, descending) == 0 <==> lex_cmp(a, b) == 0,
{
    lemma_lex_antisym(a, b);
    if descending {
        lemma_lex_trans(c, b, a);
    } else {
        lemma_lex_trans(a, b, c);
    }
}

fn cmp_u64(a: u64, b: u64) -> (r: i8)
    ensures
        r as int == lex_cmp(seq![a as int], seq![b as int]),
{
    proof {
        lemma_lex_single(a as int, b as int);
    }
    if a < b {
        -1
    } else if a > b {
        1
    } else {
        0
    }
}

fn cmp_bytes(a: &[u8], b: &[u8]) -> (r: i8)
    ensures
        r as int == lex_cmp(bytes_key(a@), bytes_key(b@)),
{
    let ghost ka = bytes_key(a@);
    let ghost kb = bytes_key(b@);
    let mut i: usize = 0;
    assert(ka.subrange(0, ka.len() as int) =~= ka);
    assert(kb.subrange(0, kb.len() as int) =~= kb);
    while i < a.len() && i < b.len()
        invariant
            0 <= i <= a@.len(),
            i <= b@.len(),
            ka == bytes_key(a@),
            kb == bytes_key(b@),
            lex_cmp(ka, kb) == lex_cmp(ka.subrange(i as int, ka.len() as int), kb.subrange(i as int, kb.len() as int)),
        decreases a@.len() - i,
    {
        let x = a[i];
        let y = b[i];
        let ghost sa = ka.subrange(i as int, ka.len() as int);
        let ghost sb = kb.subrange(i as int, kb.len() as int);
        assert(sa[0] == x as int && sb[0] == y as int);
        if x < y {
            return -1;
        } else if x > y {
            return 1;
        }
        assert(sa.drop_first() =~= ka.subrange(i + 1, ka.len() as int));
        assert(sb.drop_first() =~= kb.subrange(i + 1, kb.len() as int));
        i = i + 1;
    }
    assert(ka.subrange(i as int, ka.len() as int).len() == a@.len() - i);
    assert(kb.subrange(i as int, kb.len() as int).len() == b@.len() - i);
    if i < a.len() {
        1
    } else if i < b.len() {
        -1
    } else {
        0
    }
}

/// Compares two processes by a column: -1, 0 or 1.
pub fn compare_processes(a: &ProcessInfo, b: &ProcessInfo, sort: ProcessSort) -> (r: i8)
    ensures
        r as int == lex_cmp(sort_key(*a, sort), sort_key(*b, sort)),
{
    match sort {
        ProcessSort::Pid => cmp_u64(a.pid as u64, b.pid as u64),
        ProcessSort::Name => cmp_bytes(a.name.as_str().as_bytes(), b.name.as_str().as_bytes()),
        ProcessSort::Cpu => cmp_u64(a.cpu_usage, b.cpu_usage),
        ProcessSort::Memory => cmp_u64(a.memory_usage, b.memory_usage),
        ProcessSort::User => cmp_bytes(a.user.as_str().as_bytes(), b.user.as_str().as_bytes()),
        ProcessSort::Time => cmp_u64(a.uptime, b.uptime),
        ProcessSort::Threads => cmp_u64(a.threads as u64, b.threads as u64),
        ProcessSort::State => cmp_u64(a.state.code() as u32 as u64, b.state.code() as u32 as u64),
    }
}

fn goes_before(a: &ProcessInfo, b: &ProcessInfo, sort: ProcessSort, descending: bool) -> (r: bool)
    ensures
        r == precedes(sort_key(*a, sort), sort_key(*b, sort), descending),
{
    let c = compare_processes(a, b, sort);
    proof {
        lemma_lex_antisym(sort_key(*a, sort), sort_key(*b, sort));
    }
    if descending {
        c > 0
    } else {
        c < 0
    }
}

/// Progress of the insertion sort: the first `i` places of `w` hold the
/// first `i` processes of `s`, stably ordered; the rest are untouched.
spec fn sort_progress(
    s: Seq<ProcessInfo>,
    w: Seq<ProcessInfo>,
    perm: Seq<int>,
    i: int,
    sort: ProcessSort,
    descending: bool,
) -> bool {
    &&& w.len() == s.len()
    &&& perm.len() == s.len()
    &&& 0 <= i <= s.len()
    &&& forall|k: int| 0 <= k < w.len() ==> #[trigger] w[k] == s[perm[k]]
    &&& forall|k: int| i <= k < w.len() ==> #[trigger] perm[k] == k
    &&& forall|k: int| 0 <= k < i ==> 0 <= #[trigger] perm[k] < i
    &&& forall|a: int, b: int| 0 <= a < b < i ==> #[trigger] perm[a] != #[trigger] perm[b]
    &&& forall|a: int, b: int|
        0 <= a < b < i ==> !precedes(
            sort_key(#[trigger] w[b], sort),
            sort_key(#[trigger] w[a], sort),
            descending,
        )
    &&& forall|a: int, b: int|
        0 <= a < b < i && lex_cmp(sort_key(#[trigger] w[a], sort), sort_key(#[trigger] w[b], sort))
            == 0 ==> perm[a] < perm[b]
}

/// Where place `k` comes from when the element at `i` is moved to `j`.
spec fn moved_from(k: int, j: int, i: int) -> int {
    if k < j {
        k
    } else if k == j {
        i
    } else if k <= i {
        k - 1
    } else {
        k
    }
}

proof fn lemma_insert_step(
    s: Seq<ProcessInfo>,
    w: Seq<ProcessInfo>,
    perm: Seq<int>,
    i: int,
    j: int,
    sort: ProcessSort,
    descending: bool,
)
    requires
        sort_progress(s, w, perm, i, sort, descending),
        0 <= j <= i < w.len(),
        forall|k: int|
            j <= k < i ==> precedes(sort_key(w[i], sort), sort_key(#[trigger] w[k], sort), descending),
        j > 0 ==> !precedes(sort_key(w[i], sort), sort_key(w[j - 1], sort), descending),
    ensures
        sort_progress(
            s,
            w.remove(i).insert(j, w[i]),
            perm.remove(i).insert(j, i),
            i + 1,
            sort,
            descending,
        ),
{
    let x = w[i];
    let kx = sort_key(x, sort);
    let nw = w.remove(i).insert(j, x);
    let np = perm.remove(i).insert(j, i);
    assert(perm[i] == i);
    assert forall|k: int| 0 <= k < nw.len() implies #[trigger] nw[k] == w[moved_from(k, j, i)]
        && np[k] == perm[moved_from(k, j, i)] by {}
    assert forall|k: int| 0 <= k < nw.len() implies #[trigger] nw[k] == s[np[k]] by {
        assert(nw[k] == w[moved_from(k, j, i)]);
    }
    assert forall|k: int| i + 1 <= k < nw.len() implies #[trigger] np[k] == k by {
        assert(np[k] == perm[moved_from(k, j, i)]);
    }
    assert forall|k: int| 0 <= k < i + 1 implies 0 <= #[trigger] np[k] < i + 1 by {
        assert(np[k] == perm[moved_from(k, j, i)]);
    }
    assert forall|a: int, b: int| 0 <= a < b < i + 1 implies #[trigger] np[a] != #[trigger] np[b] by {
        assert(np[a] == perm[moved_from(a, j, i)]);
        assert(np[b] == perm[moved_from(b, j, i)]);
        let sa = moved_from(a, j, i);
        let sb = moved_from(b, j, i);
        if sa < sb && sb < i {
            assert(perm[sa] != perm[sb]);
        } else if sb < sa && sa < i {
            assert(perm[sb] != perm[sa]);
        }
    }
    assert forall|a: int, b: int| 0 <= a < b < i + 1 implies !precedes(
        sort_key(#[trigger] nw[b], sort),
        sort_key(#[trigger] nw[a], sort),
        descending,
    ) && (lex_cmp(sort_key(nw[a], sort), sort_key(nw[b], sort)) == 0 ==> np[a] < np[b]) by {
        assert(nw[a] == w[moved_from(a, j, i)]);
        assert(nw[b] == w[moved_from(b, j, i)]);
        assert(np[a] == perm[moved_from(a, j, i)]);
        assert(np[b] == perm[moved_from(b, j, i)]);
        let sa = moved_from(a, j, i);
        let sb = moved_from(b, j, i);
        if b == j {
            // a lies before the insertion point: its key is at most x's.
            let ka = sort_key(w[a], sort);
            let kp = sort_key(w[j - 1], sort);
            lemma_ord_facts(ka, kp, kx, descending);
            lemma_ord_facts(kp, kx, kx, descending);
            lemma_ord_facts(kx, ka, kx, descending);
            if a < j - 1 {
                assert(!precedes(sort_key(w[j - 1], sort), sort_key(w[a], sort), descending));
            }
            assert(ord_cmp(ka, kx, descending) <= 0);
            assert(!precedes(kx, ka, descending));
            assert(perm[a] < i);
        } else if a == j {
            // b was passed over by the scan: x goes strictly before it.
            let kb = sort_key(w[sb], sort);
            assert(precedes(kx, kb, descending));
            lemma_ord_facts(kx, kb, kb, descending);
            assert(!precedes(kb, kx, descending));
            assert(lex_cmp(kx, kb) != 0);
        } else {
            assert(sa < sb && sb < i);
        }
    }
}

/// Sorts `v` stably by the column, in ascending order or, when `descending`
/// holds, in descending order.
pub fn sort_processes(v: &mut Vec<ProcessInfo>, sort: ProcessSort, descending: bool)
    ensures
        is_stable_sort(old(v)@, final(v)@, sort, descending),
{
    let ghost s = v@;
    let ghost mut perm: Seq<int> = Seq::new(s.len(), |k: int| k);
    let n = v.len();
    let mut i: usize = 0;
    while i < n
        invariant
            n == v@.len(),
            i <= n,
            sort_progress(s, v@, perm, i as int, sort, descending),
        decreases n - i,
    {
        let ghost w = v@;
        let x = v.remove(i);
        let mut j: usize = i;
        while j > 0 && goes_before(&x, &v[j - 1], sort, descending)
            invariant
                j <= i < n,
                w.len() == n,
                x == w[i as int],
                v@ == w.remove(i as int),
                forall|k: int|
                    j <= k < i ==> precedes(
                        sort_key(x, sort),
                        sort_key(#[trigger] w[k], sort),
                        descending,
                    ),
            decreases j,
        {
            j = j - 1;
        }
        proof {
            lemma_insert_step(s, w, perm, i as int, j as int, sort, descending);
            perm = perm.remove(i as int).insert(j as int, i as int);
        }
        v.insert(j, x);
        i = i + 1;
    }
    assert(ordered_stably(s, v@, perm, sort, descending));
}

/// Ordering by CPU usage keeps processes of equal usage in their input
/// order: in the sorted list, of two processes with the same usage, the one
/// that came first in the input comes first.
pub proof fn lemma_cpu_sort_keeps_ties_in_order(
    s: Seq<ProcessInfo>,
    r: Seq<ProcessInfo>,
    descending: bool,
)
    requires
        is_stable_sort(s, r, ProcessSort::Cpu, descending),
    ensures
        exists|perm: Seq<int>|
            {
                &&& is_index_permutation(perm, s.len())
                &&& forall|k: int| 0 <= k < r.len() ==> #[trigger] r[k] == s[perm[k]]
                &&& forall|a: int, b: int|
                    0 <= a < b < r.len() && (#[trigger] r[a]).cpu_usage == (#[trigger] r[b]).cpu_usage
                        ==> perm[a] < perm[b]
            },
{
    let perm = choose|perm: Seq<int>| ordered_stably(s, r, perm, ProcessSort::Cpu, descending);
    assert forall|a: int, b: int|
        0 <= a < b < r.len() && (#[trigger] r[a]).cpu_usage == (#[trigger] r[b]).cpu_usage implies perm[a]
        < perm[b] by {
        lemma_lex_single(r[a].cpu_usage as int, r[b].cpu_usage as int);
    }
}

} // verus!
