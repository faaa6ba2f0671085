//! A keyed collection of records kept in insertion order: inserting a record
//! whose key is already present replaces it in place, as a map would.

use vstd::prelude::*;

verus! {

/// A record with a 128-bit key.
pub trait Record: Sized {
    spec fn key_of(&self) -> u128;

    fn key(&self) -> (k: u128)
        ensures
            k == self.key_of(),
    ;

    fn duplicate(&self) -> (r: Self)
        ensures
            r == *self,
    ;
}

/// No key occurs twice.
pub open spec fn keys_unique<T: Record>(s: Seq<T>) -> bool {
    forall|i: int, j: int| 0 <= i < j < s.len() ==> (#[trigger] s[i]).key_of() != (#[trigger] s[j]).key_of()
}

/// Whether some record has key `k`.
pub open spec fn has_key<T: Record>(s: Seq<T>, k: u128) -> bool {
    exists|i: int| 0 <= i < s.len() && (#[trigger] s[i]).key_of() == k
}

/// The position of the record with key `k` (meaningful when there is one).
pub open spec fn index_of<T: Record>(s: Seq<T>, k: u128) -> int {
    choose|i: int| 0 <= i < s.len() && (#[trigger] s[i]).key_of() == k
}

/// The record with key `k`, if any.
pub open spec fn lookup<T: Record>(s: Seq<T>, k: u128) -> Option<T> {
    if has_key(s, k) {
        Some(s[index_of(s, k)])
    } else {
        None
    }
}

/// `s` with `x` stored under its key: replacing the record with that key
/// where there is one, appended at the end otherwise.
pub open spec fn upsert<T: Record>(s: Seq<T>, x: T) -> Seq<T> {
    if has_key(s, x.key_of()) {
        s.update(index_of(s, x.key_of()), x)
    } else {
        s.push(x)
    }
}

/// In a sequence without repeated keys, the record at `i` is the one that
/// its key finds.
pub proof fn lemma_index_of_unique<T: Record>(s: Seq<T>, i: int)
    requires
        keys_unique(s),
        0 <= i < s.len(),
    ensures
        has_key(s, s[i].key_of()),
        index_of(s, s[i].key_of()) == i,
        lookup(s, s[i].key_of()) == Some(s[i]),
{
    let k = s[i].key_of();
    assert(has_key(s, k));
    let c = index_of(s, k);
    if c != i {
        if c < i {
            assert(s[c].key_of() != s[i].key_of());
        } else {
            assert(s[i].key_of() != s[c].key_of());
        }
    }
}

/// Storing a record keeps the keys unique, and afterwards its key finds it
/// while every other key finds what it found before.
pub proof fn lemma_upsert<T: Record>(s: Seq<T>, x: T)
    requires
        keys_unique(s),
    ensures
        keys_unique(upsert(s, x)),
        lookup(upsert(s, x), x.key_of()) == Some(x),
        forall|k: u128| k != x.key_of() ==> #[trigger] lookup(upsert(s, x), k) == lookup(s, k),
{
    let t = upsert(s, x);
    let kx = x.key_of();
    if has_key(s, kx) {
        let p = index_of(s, kx);
        assert forall|i: int, j: int| 0 <= i < j < t.len() implies (#[trigger] t[i]).key_of() != (#[trigger] t[j]).key_of() by {
            if i == p {
                assert(s[j].key_of() != s[p].key_of());
            } else if j == p {
                assert(s[i].key_of() != s[p].key_of());
            }
        }
        lemma_index_of_unique(t, p);
        assert forall|k: u128| k != kx implies #[trigger] lookup(t, k) == lookup(s, k) by {
            if has_key(s, k) {
                let q = index_of(s, k);
                assert(q != p);
                assert(t[q] == s[q]);
                lemma_index_of_unique(t, q);
            }
            if has_key(t, k) {
                let q = index_of(t, k);
                assert(q != p);
                assert(s[q] == t[q]);
            }
        }
    } else {
        let n = s.len() as int;
        assert forall|i: int, j: int| 0 <= i < j < t.len() implies (#[trigger] t[i]).key_of() != (#[trigger] t[j]).key_of() by {
            if j == n {
                assert(t[i] == s[i]);
            } else {
                assert(t[i] == s[i] && t[j] == s[j]);
            }
        }
        lemma_index_of_unique(t, n);
        assert forall|k: u128| k != kx implies #[trigger] lookup(t, k) == lookup(s, k) by {
            if has_key(s, k) {
                let q = index_of(s, k);
                assert(t[q] == s[q]);
                lemma_index_of_unique(t, q);
            }
            if has_key(t, k) {
                let q = index_of(t, k);
                assert(q != n);
                assert(s[q] == t[q]);
            }
        }
    }
}

/// One more element of a prefix either joins the filtered prefix or not.
pub proof fn lemma_filter_step<T>(s: Seq<T>, i: int, p: spec_fn(T) -> bool)
    requires
        0 <= i < s.len(),
    ensures
        s.take(i + 1).filter(p) == if p(s[i]) {
            s.take(i).filter(p).push(s[i])
        } else {
            s.take(i).filter(p)
        },
{
    reveal(Seq::filter);
    assert(s.take(i + 1).drop_last() =~= s.take(i));
    assert(s.take(i + 1).last() == s[i]);
}

/// A whole sequence is its longest prefix.
pub proof fn lemma_take_all<T>(s: Seq<T>)
    ensures
        s.take(s.len() as int) == s,
{
    assert(s.take(s.len() as int) =~= s);
}

/// Records kept under unique keys.
pub struct Store<T: Record> {
    items: Vec<T>,
}

impl<T: Record> Store<T> {
    /// The records, in insertion order.
    pub closed spec fn contents(&self) -> Seq<T> {
        self.items@
    }

    /// No key occurs twice.
    pub open spec fn wf(&self) -> bool {
        keys_unique(self.contents())
    }

    /// An empty store.
    pub fn new() -> (s: Self)
        ensures
            s.wf(),
            s.contents() == Seq::<T>::empty(),
    {
        Store { items: Vec::new() }
    }

    /// How many records there are.
    pub fn len(&self) -> (n: usize)
        ensures
            n == self.contents().len(),
    {
        self.items.len()
    }

    /// The record at position `i`.
    pub fn at(&self, i: usize) -> (r: &T)
        requires
            i < self.contents().len(),
        ensures
            *r == self.contents()[i as int],
    {
        &self.items[i]
    }

    /// A copy of the record with key `k`, if any.
    pub fn get(&self, k: u128) -> (r: Option<T>)
        requires
            self.wf(),
        ensures
            r == lookup(self.contents(), k),
    {
        let mut i: usize = 0;
        while i < self.items.len()
            invariant
                self.wf(),
                i <= self.items@.len(),
                forall|j: int| 0 <= j < i ==> (#[trigger] self.items@[j]).key_of() != k,
            decreases self.items@.len() - i,
        {
            if self.items[i].key() == k {
                proof {
                    lemma_index_of_unique(self.items@, i as int);
                }
                return Some(self.items[i].duplicate());
            }
            i = i + 1;
        }
        None
    }

    /// Stores `x` under its key, replacing any record with that key.
    pub fn put(&mut self, x: T)
        requires
            old(self).wf(),
        ensures
            final(self).wf(),
            final(self).contents() == upsert(old(self).contents(), x),
            lookup(final(self).contents(), x.key_of()) == Some(x),
            forall|k: u128| k != x.key_of() ==> #[trigger] lookup(final(self).contents(), k) == lookup(old(self).contents(), k),
    {
        let k = x.key();
        let mut i: usize = 0;
        while i < self.items.len()
            invariant
                self.items@ == old(self).items@,
                keys_unique(self.items@),
                k == x.key_of(),
                i <= self.items@.len(),
                forall|j: int| 0 <= j < i ==> (#[trigger] self.items@[j]).key_of() != k,
            decreases self.items@.len() - i,
        {
            if self.items[i].key() == k {
                let ghost pre = self.items@;
                proof {
                    lemma_index_of_unique(pre, i as int);
                    lemma_upsert(pre, x);
                    assert(pre[i as int].key_of() == x.key_of());
                    assert(upsert(pre, x) == pre.update(i as int, x));
                }
                self.items.set(i, x);
                assert(self.items@ == upsert(pre, x));
                return;
            }
            i = i + 1;
        }
        proof {
            lemma_upsert(self.items@, x);
        }
        self.items.push(x);
    }
}

} // verus!
