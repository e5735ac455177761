use vstd::prelude::*;

verus! {

/// The window `h` after sample `v` enters at the end and the oldest sample
/// leaves at the front.
pub open spec fn slide(h: Seq<u64>, v: u64) -> Seq<u64> {
    h.drop_first().push(v)
}

/// The window `h` after the samples `vals` entered one after another.
pub open spec fn slide_all(h: Seq<u64>, vals: Seq<u64>) -> Seq<u64>
    decreases vals.len(),
{
    if vals.len() == 0 {
        h
    } else {
        slide(slide_all(h, vals.drop_last()), vals.last())
    }
}

/// Appends a sample to a non-empty window and evicts the oldest one, so that
/// the window keeps its length.
pub fn push_sample(h: &mut Vec<u64>, v: u64)
    requires
        old(h)@.len() > 0,
    ensures
        final(h)@ == slide(old(h)@, v),
{
    h.remove(0);
    h.push(v);
}

/// However many samples enter a non-empty window, it keeps its length, holds
/// exactly the most recent samples of its old contents followed by the new
/// ones, and ends with the last sample pushed.
pub proof fn lemma_window_keeps_length(h: Seq<u64>, vals: Seq<u64>)
    requires
        h.len() > 0,
    ensures
        slide_all(h, vals).len() == h.len(),
        slide_all(h, vals) == (h + vals).subrange(vals.len() as int, (h.len() + vals.len()) as int),
        vals.len() > 0 ==> slide_all(h, vals).last() == vals.last(),
    decreases vals.len(),
{
    if vals.len() > 0 {
        let m = vals.len() as int;
        let n = h.len() as int;
        let prev = vals.drop_last();
        lemma_window_keeps_length(h, prev);
        let w = slide_all(h, prev);
        assert(w == (h + prev).subrange(m - 1, n + m - 1));
        assert(slide(w, vals.last()) =~= (h + vals).subrange(m, n + m)) by {
            assert forall|k: int| 0 <= k < n implies #[trigger] slide(w, vals.last())[k] == (h
                + vals).subrange(m, n + m)[k] by {
                if k < n - 1 {
                    assert(slide(w, vals.last())[k] == w[k + 1]);
                    assert(w[k + 1] == (h + prev)[m + k]);
                    if m + k < n {
                        assert((h + prev)[m + k] == h[m + k]);
                    } else {
                        assert((h + prev)[m + k] == prev[m + k - n]);
                        assert(prev[m + k - n] == vals[m + k - n]);
                    }
                } else {
                    assert(slide(w, vals.last())[k] == vals.last());
                    assert((h + vals)[m + k] == vals[m - 1]);
                }
            }
        }
    }
}

} // verus!
