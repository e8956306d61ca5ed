use vstd::prelude::*;

verus! {

/// A value that an `Interner` can store: equality is decided by the value's
/// view.
pub trait Internable: View + Sized {
    fn same(&self, other: &Self) -> (r: bool)
        ensures
            r == (self@ == other@),
    ;
}

impl Internable for String {
    fn same(&self, other: &Self) -> (r: bool) {
        *self == *other
    }
}

/// No value occurs twice in `s`.
pub open spec fn distinct<A>(s: Seq<A>) -> bool {
    forall|i: int, j: int| 0 <= i < j < s.len() ==> s[i] != s[j]
}

/// The handle of `v` in a table holding `s`, when `v` is there.
pub open spec fn handle_of<A>(s: Seq<A>, v: A) -> int {
    choose|i: int| 0 <= i < s.len() && s[i] == v
}

/// In a table that holds each value once, the handle of a value is the one
/// position that holds it.
pub proof fn lemma_handle_of_unique<A>(s: Seq<A>, v: A, i: int)
    requires
        distinct(s),
        0 <= i < s.len(),
        s[i] == v,
    ensures
        handle_of(s, v) == i,
{
    let h = handle_of(s, v);
    assert(0 <= h < s.len() && s[h] == v);
}

/// The table after interning `v` into `s`.
pub open spec fn interned<A>(s: Seq<A>, v: A) -> Seq<A> {
    if s.contains(v) {
        s
    } else {
        s.push(v)
    }
}

/// The handle that interning `v` into `s` hands out.
pub open spec fn interned_handle<A>(s: Seq<A>, v: A) -> int {
    if s.contains(v) {
        handle_of(s, v)
    } else {
        s.len() as int
    }
}

/// The table after interning each of `vs` into `s`, in order.
pub open spec fn interned_all<A>(s: Seq<A>, vs: Seq<A>) -> Seq<A>
    decreases vs.len(),
{
    if vs.len() == 0 {
        s
    } else {
        interned(interned_all(s, vs.drop_last()), vs.last())
    }
}

/// The handles that interning each of `vs` into `s`, in order, hands out.
pub open spec fn interned_all_handles<A>(s: Seq<A>, vs: Seq<A>) -> Seq<int>
    decreases vs.len(),
{
    if vs.len() == 0 {
        Seq::empty()
    } else {
        let t = interned_all(s, vs.drop_last());
        interned_all_handles(s, vs.drop_last()).push(interned_handle(t, vs.last()))
    }
}

/// Interning a value a second time hands out the handle of the first time
/// and leaves the table as the first time left it; that handle resolves to
/// the value, and the table still holds each value once.
pub proof fn lemma_intern_idempotent<A>(s: Seq<A>, v: A)
    requires
        distinct(s),
    ensures
        distinct(interned(s, v)),
        interned(interned(s, v), v) == interned(s, v),
        interned_handle(interned(s, v), v) == interned_handle(s, v),
        0 <= interned_handle(s, v) < interned(s, v).len(),
        interned(s, v)[interned_handle(s, v)] == v,
{
    if s.contains(v) {
        let h = handle_of(s, v);
        assert(0 <= h < s.len() && s[h] == v);
    } else {
        let t = s.push(v);
        assert(t[s.len() as int] == v);
        assert(distinct(t));
        lemma_handle_of_unique(t, v, s.len() as int);
    }
}

/// Interning distinct values into an empty table, in order, stores them in
/// that order and hands out the handles 0, 1, ..., n - 1.
pub proof fn lemma_intern_dense<A>(vs: Seq<A>)
    requires
        distinct(vs),
    ensures
        interned_all(Seq::empty(), vs) == vs,
        interned_all_handles(Seq::empty(), vs) == Seq::new(vs.len(), |i: int| i),
    decreases vs.len(),
{
    if vs.len() > 0 {
        let p = vs.drop_last();
        assert(distinct(p));
        lemma_intern_dense(p);
        if p.contains(vs.last()) {
            let k = choose|k: int| 0 <= k < p.len() && p[k] == vs.last();
            assert(vs[k] == vs[vs.len() - 1]);
        }
        assert(p.push(vs.last()) =~= vs);
        assert(interned_all_handles(Seq::empty(), vs) =~= Seq::new(vs.len(), |i: int| i));
    }
}

/// A deduplicating table from values to dense handles: the handle of a value
/// is its position in the order of first insertion.
pub struct Interner<V> {
    backward: Vec<V>,
}

impl<V: Internable> View for Interner<V> {
    type V = Seq<V::V>;

    closed spec fn view(&self) -> Seq<V::V> {
        self.backward@.map_values(|x: V| x@)
    }
}

impl<V: Internable> Interner<V> {
    /// Each value is stored once.
    pub open spec fn wf(&self) -> bool {
        distinct(self@)
    }

    pub fn new() -> (r: Interner<V>)
        ensures
            r.wf(),
            r@ == Seq::<V::V>::empty(),
    {
        let r = Interner { backward: Vec::new() };
        assert(r@ =~= Seq::<V::V>::empty());
        r
    }

    pub fn len(&self) -> (r: usize)
        ensures
            r == self@.len(),
    {
        self.backward.len()
    }

    pub fn intern(&mut self, v: V) -> (r: usize)
        requires
            old(self).wf(),
            old(self)@.len() < usize::MAX,
        ensures
            final(self).wf(),
            final(self)@ == interned(old(self)@, v@),
            r == interned_handle(old(self)@, v@),
            0 <= r < final(self)@.len(),
            final(self)@[r as int] == v@,
    {
        let n = self.backward.len();
        let mut i: usize = 0;
        while i < n
            invariant
                n == self.backward.len(),
                n == self@.len(),
                self@ == old(self)@,
                distinct(self@),
                0 <= i <= n,
                forall|k: int| 0 <= k < i ==> self@[k] != v@,
            decreases n - i,
        {
            if self.backward[i].same(&v) {
                proof {
                    assert(self@[i as int] == self.backward@[i as int]@);
                    lemma_handle_of_unique(self@, v@, i as int);
                }
                return i;
            }
            i = i + 1;
        }
        proof {
            assert(!self@.contains(v@));
        }
        self.backward.push(v);
        assert(self@ =~= interned(old(self)@, v@));
        n
    }

    pub fn get(&self, i: usize) -> (r: &V)
        requires
            i < self@.len(),
        ensures
            r@ == self@[i as int],
    {
        &self.backward[i]
    }
}

} // verus!
