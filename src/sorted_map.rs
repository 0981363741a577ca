use vstd::prelude::*;

verus! {

/// Keys of `s` are strictly ascending.
pub open spec fn ascending<V>(s: Seq<(i64, V)>) -> bool {
    forall|i: int, j: int| 0 <= i < j < s.len() ==> s[i].0 < s[j].0
}

/// Some entry of `s` is exactly `e`.
pub open spec fn holds<V>(s: Seq<(i64, V)>, e: (i64, V)) -> bool {
    exists|i: int| 0 <= i < s.len() && s[i] == e
}

/// Some entry of `s` has key `k`.
pub open spec fn has_key<V>(s: Seq<(i64, V)>, k: i64) -> bool {
    exists|i: int| 0 <= i < s.len() && s[i].0 == k
}

/// A map from integer keys to values, kept in ascending key order, so that
/// walking it never depends on the order in which entries were added.
pub struct SortedMap<V> {
    entries: Vec<(i64, V)>,
}

impl<V> SortedMap<V> {
    /// The entries, in ascending key order.
    pub closed spec fn entries(&self) -> Seq<(i64, V)> {
        self.entries@
    }

    pub open spec fn wf(&self) -> bool {
        ascending(self.entries())
    }

    pub fn new() -> (r: Self)
        ensures
            r.wf(),
            r.entries().len() == 0,
    {
        SortedMap { entries: Vec::new() }
    }

    pub fn len(&self) -> (r: usize)
        ensures
            r == self.entries().len(),
    {
        self.entries.len()
    }

    pub fn entry(&self, i: usize) -> (r: &(i64, V))
        requires
            i < self.entries().len(),
        ensures
            *r == self.entries()[i as int],
    {
        &self.entries[i]
    }

    /// Adds `v` under `k`, replacing what `k` held before.
    pub fn insert(&mut self, k: i64, v: V)
        requires
            old(self).wf(),
        ensures
            final(self).wf(),
            holds(final(self).entries(), (k, v)),
            forall|i: int|
                0 <= i < final(self).entries().len() ==> #[trigger] final(self).entries()[i] == (k, v)
                    || (final(self).entries()[i].0 != k && holds(
                    old(self).entries(),
                    final(self).entries()[i],
                )),
            forall|i: int|
                0 <= i < old(self).entries().len() && #[trigger] old(self).entries()[i].0 != k
                    ==> holds(final(self).entries(), old(self).entries()[i]),
            final(self).entries().len() == old(self).entries().len() + (if has_key(
                old(self).entries(),
                k,
            ) {
                0int
            } else {
                1int
            }),
    {
        let ghost old_s = self.entries@;
        let mut i: usize = 0;
        while i < self.entries.len() && self.entries[i].0 < k
            invariant
                self.entries@ == old_s,
                ascending(old_s),
                i <= old_s.len(),
                forall|j: int| 0 <= j < i ==> old_s[j].0 < k,
            decreases old_s.len() - i,
        {
            i = i + 1;
        }
        if i < self.entries.len() && self.entries[i].0 == k {
            self.entries.remove(i);
            self.entries.insert(i, (k, v));
            let ghost s = self.entries@;
            assert(s == old_s.update(i as int, (k, v)));
            assert(s[i as int] == (k, v));
            assert forall|j: int| 0 <= j < old_s.len() && #[trigger] old_s[j].0 != k implies holds(
                s,
                old_s[j],
            ) by {
                assert(j != i);
                assert(s[j] == old_s[j]);
            }
            assert forall|j: int| 0 <= j < s.len() implies #[trigger] s[j] == (k, v) || (s[j].0
                != k && holds(old_s, s[j])) by {
                if j != i {
                    assert(s[j] == old_s[j]);
                    assert(old_s[j].0 != k);
                }
            }
            assert(has_key(old_s, k));
        } else {
            self.entries.insert(i, (k, v));
            let ghost s = self.entries@;
            assert(s[i as int] == (k, v));
            assert forall|j: int| 0 <= j < old_s.len() && #[trigger] old_s[j].0 != k implies holds(
                s,
                old_s[j],
            ) by {
                if j < i {
                    assert(s[j] == old_s[j]);
                } else {
                    assert(s[j + 1] == old_s[j]);
                }
            }
            assert forall|j: int| 0 <= j < s.len() implies #[trigger] s[j] == (k, v) || (s[j].0
                != k && holds(old_s, s[j])) by {
                if j < i {
                    assert(s[j] == old_s[j]);
                } else if j > i {
                    assert(s[j] == old_s[j - 1]);
                    assert(old_s[j - 1].0 > k);
                }
            }
            assert(!has_key(old_s, k)) by {
                assert forall|j: int| 0 <= j < old_s.len() implies old_s[j].0 != k by {
                    if j >= i {
                        assert(old_s[i as int].0 > k);
                    }
                }
            }
        }
    }
}

} // verus!
