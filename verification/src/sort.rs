use vstd::multiset::Multiset;
use vstd::prelude::*;

verus! {

broadcast use vstd::seq_lib::group_to_multiset_ensures, vstd::multiset::group_multiset_axioms;

/// A record with a timestamp-like sort key; listings order such records
/// by the key, newest first.
pub trait SortKey {
    /// The key, as a mathematical integer.
    spec fn sort_key(self) -> int;

    /// The key.
    fn sort_key_exec(&self) -> (k: i64)
        ensures
            k as int == self.sort_key(),
    ;
}

/// The sequence is ordered by key, largest first (non-increasing).
pub open spec fn sorted_desc<T: SortKey>(s: Seq<T>) -> bool {
    forall|i: int, j: int| 0 <= i <= j < s.len() ==> s[i].sort_key() >= s[j].sort_key()
}

/// Order the records by key, largest first. The result holds exactly the
/// given records, as a multiset.
pub fn sort_desc<T: SortKey>(v: Vec<T>) -> (r: Vec<T>)
    ensures
        sorted_desc(r@),
        r@.to_multiset() == v@.to_multiset(),
{
    let mut work = v;
    let ghost all = work@.to_multiset();
    let mut out: Vec<T> = Vec::new();
    proof {
        assert(out@.to_multiset().add(work@.to_multiset()) =~= all);
    }
    while work.len() > 0
        invariant
            sorted_desc(out@),
            forall|i: int, j: int|
                0 <= i < out@.len() && 0 <= j < work@.len()
                    ==> out@[i].sort_key() >= work@[j].sort_key(),
            out@.to_multiset().add(work@.to_multiset()) == all,
        decreases work.len(),
    {
        let mut m: usize = 0;
        let mut i: usize = 1;
        while i < work.len()
            invariant
                m < i <= work@.len(),
                work@.len() > 0,
                forall|k: int| 0 <= k < i ==> work@[k].sort_key() <= work@[m as int].sort_key(),
            decreases work@.len() - i,
        {
            if work[i].sort_key_exec() > work[m].sort_key_exec() {
                m = i;
            }
            i += 1;
        }
        let ghost w0 = work@;
        let ghost out0 = out@;
        let x = work.remove(m);
        out.push(x);
        proof {
            w0.to_multiset_ensures();
            out0.to_multiset_ensures();
            w0.remove_ensures(m as int);
            assert(w0.contains(x));
            assert(w0.to_multiset().count(x) > 0);
            assert(out@.to_multiset() =~= out0.to_multiset().insert(x));
            assert(work@.to_multiset() =~= w0.to_multiset().remove(x));
            assert(out@.to_multiset().add(work@.to_multiset()) =~= all);
            assert forall|i2: int, j2: int|
                0 <= i2 <= j2 < out@.len() implies out@[i2].sort_key() >= out@[j2].sort_key() by {
                if j2 < out0.len() {
                    assert(out@[i2] == out0[i2] && out@[j2] == out0[j2]);
                } else {
                    assert(out@[j2] == x);
                    if i2 < out0.len() {
                        assert(out@[i2] == out0[i2]);
                        assert(out0[i2].sort_key() >= w0[m as int].sort_key());
                    }
                }
            }
            assert forall|i2: int, j2: int|
                0 <= i2 < out@.len() && 0 <= j2 < work@.len() implies out@[i2].sort_key()
                >= work@[j2].sort_key() by {
                if j2 < m as int {
                    assert(work@[j2] == w0[j2]);
                } else {
                    assert(work@[j2] == w0[j2 + 1]);
                }
                assert(work@[j2].sort_key() <= w0[m as int].sort_key());
                if i2 < out0.len() {
                    assert(out@[i2] == out0[i2]);
                } else {
                    assert(out@[i2] == x);
                }
            }
        }
    }
    proof {
        assert(work@.to_multiset() =~= Multiset::<T>::empty());
        assert(out@.to_multiset().add(work@.to_multiset()) =~= out@.to_multiset());
    }
    out
}

} // verus!
