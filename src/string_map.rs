use vstd::prelude::*;

verus! {

/// One key and its value.
pub struct Entry {
    pub key: String,
    pub value: String,
}

/// A string-keyed map that keeps its keys in order of first insertion.
///
/// Property maps hold JSON text as their values; group maps hold plain
/// member ids.
pub struct StringMap {
    entries: Vec<Entry>,
}

/// The value last bound to `k` in a sequence of pairs, if any.
pub open spec fn lookup(s: Seq<(Seq<char>, Seq<char>)>, k: Seq<char>) -> Option<Seq<char>>
    decreases s.len(),
{
    if s.len() == 0 {
        None
    } else if s.last().0 == k {
        Some(s.last().1)
    } else {
        lookup(s.drop_last(), k)
    }
}

/// No key occurs twice.
pub open spec fn keys_unique(s: Seq<(Seq<char>, Seq<char>)>) -> bool {
    forall|i: int, j: int| 0 <= i < s.len() && 0 <= j < s.len() && i != j ==> s[i].0 != s[j].0
}

/// The position of `k` in a sequence of pairs, or the length when absent.
pub open spec fn position(s: Seq<(Seq<char>, Seq<char>)>, k: Seq<char>) -> int
    decreases s.len(),
{
    if s.len() == 0 {
        0
    } else if s[0].0 == k {
        0
    } else {
        1 + position(s.drop_first(), k)
    }
}

/// `s` with `k` bound to `v`: in place where `k` occurs, else appended.
pub open spec fn bind(s: Seq<(Seq<char>, Seq<char>)>, k: Seq<char>, v: Seq<char>) -> Seq<
    (Seq<char>, Seq<char>),
> {
    let i = position(s, k);
    if i < s.len() {
        s.update(i, (k, v))
    } else {
        s.push((k, v))
    }
}

/// Bind every pair of `t`, in order, into `s`.
pub open spec fn bind_all(s: Seq<(Seq<char>, Seq<char>)>, t: Seq<(Seq<char>, Seq<char>)>) -> Seq<
    (Seq<char>, Seq<char>),
>
    decreases t.len(),
{
    if t.len() == 0 {
        s
    } else {
        bind(bind_all(s, t.drop_last()), t.last().0, t.last().1)
    }
}

pub proof fn lemma_position_bounds(s: Seq<(Seq<char>, Seq<char>)>, k: Seq<char>)
    ensures
        0 <= position(s, k) <= s.len(),
        position(s, k) < s.len() ==> s[position(s, k)].0 == k,
        forall|j: int| 0 <= j < position(s, k) ==> s[j].0 != k,
    decreases s.len(),
{
    if s.len() > 0 && s[0].0 != k {
        lemma_position_bounds(s.drop_first(), k);
        assert forall|j: int| 0 <= j < position(s, k) implies s[j].0 != k by {
            if j > 0 {
                assert(s[j] == s.drop_first()[j - 1]);
            }
        }
    }
}

/// Under unique keys, the bound value is the one at the key's position.
pub proof fn lemma_lookup_at(s: Seq<(Seq<char>, Seq<char>)>, i: int)
    requires
        keys_unique(s),
        0 <= i < s.len(),
    ensures
        lookup(s, s[i].0) == Some(s[i].1),
    decreases s.len(),
{
    if i != s.len() - 1 {
        assert(s.drop_last()[i] == s[i]);
        lemma_lookup_at(s.drop_last(), i);
    }
}

/// A key that occurs nowhere is bound to nothing.
pub proof fn lemma_lookup_absent(s: Seq<(Seq<char>, Seq<char>)>, k: Seq<char>)
    requires
        forall|j: int| 0 <= j < s.len() ==> s[j].0 != k,
    ensures
        lookup(s, k) is None,
    decreases s.len(),
{
    if s.len() > 0 {
        lemma_lookup_absent(s.drop_last(), k);
    }
}

/// A bound value comes from some pair with that key.
pub proof fn lemma_lookup_found(s: Seq<(Seq<char>, Seq<char>)>, k: Seq<char>)
    requires
        lookup(s, k) is Some,
    ensures
        exists|j: int| 0 <= j < s.len() && s[j].0 == k && s[j].1 == lookup(s, k)->0,
    decreases s.len(),
{
    if s.last().0 != k {
        lemma_lookup_found(s.drop_last(), k);
        let j = choose|j: int|
            0 <= j < s.drop_last().len() && s.drop_last()[j].0 == k && s.drop_last()[j].1 == lookup(
                s,
                k,
            )->0;
        assert(s[j] == s.drop_last()[j]);
    } else {
        assert(s[s.len() - 1] == s.last());
    }
}

/// Binding keeps keys unique, binds `k` to `v`, and leaves every other key alone.
pub proof fn lemma_bind(s: Seq<(Seq<char>, Seq<char>)>, k: Seq<char>, v: Seq<char>)
    requires
        keys_unique(s),
    ensures
        keys_unique(bind(s, k, v)),
        lookup(bind(s, k, v), k) == Some(v),
        forall|k2: Seq<char>| k2 != k ==> lookup(bind(s, k, v), k2) == lookup(s, k2),
        bind(s, k, v).len() == if lookup(s, k) is Some { s.len() } else { s.len() + 1 },
{
    lemma_position_bounds(s, k);
    let r = bind(s, k, v);
    let i = position(s, k);
    if i < s.len() {
        lemma_lookup_at(r, i);
        lemma_lookup_at(s, i);
        assert forall|k2: Seq<char>| k2 != k implies lookup(r, k2) == lookup(s, k2) by {
            if lookup(s, k2) is Some {
                lemma_lookup_found(s, k2);
                let j = choose|j: int| 0 <= j < s.len() && s[j].0 == k2 && s[j].1 == lookup(s, k2)->0;
                lemma_lookup_at(r, j);
                lemma_lookup_at(s, j);
            } else if lookup(r, k2) is Some {
                lemma_lookup_found(r, k2);
                let j = choose|j: int| 0 <= j < r.len() && r[j].0 == k2 && r[j].1 == lookup(r, k2)->0;
                lemma_lookup_at(s, j);
            }
        }
    } else {
        lemma_lookup_absent(s, k);
        lemma_lookup_at(r, s.len() as int);
        assert forall|k2: Seq<char>| k2 != k implies lookup(r, k2) == lookup(s, k2) by {
            assert(r.drop_last() == s);
        }
    }
}

/// Binding a sequence of pairs keeps keys unique.
pub proof fn lemma_bind_all_unique(s: Seq<(Seq<char>, Seq<char>)>, t: Seq<(Seq<char>, Seq<char>)>)
    requires
        keys_unique(s),
    ensures
        keys_unique(bind_all(s, t)),
    decreases t.len(),
{
    if t.len() > 0 {
        lemma_bind_all_unique(s, t.drop_last());
        lemma_bind(bind_all(s, t.drop_last()), t.last().0, t.last().1);
    }
}

/// After binding all of `t` into `s`, a key bound in `t` has its last value there,
/// and any other key keeps its value in `s`.
pub proof fn lemma_bind_all_lookup(
    s: Seq<(Seq<char>, Seq<char>)>,
    t: Seq<(Seq<char>, Seq<char>)>,
    k: Seq<char>,
)
    requires
        keys_unique(s),
    ensures
        lookup(bind_all(s, t), k) == if lookup(t, k) is Some {
            lookup(t, k)
        } else {
            lookup(s, k)
        },
    decreases t.len(),
{
    if t.len() > 0 {
        lemma_bind_all_lookup(s, t.drop_last(), k);
        lemma_bind_all_unique(s, t.drop_last());
        lemma_bind(bind_all(s, t.drop_last()), t.last().0, t.last().1);
    }
}

impl Entry {
    pub open spec fn pair(&self) -> (Seq<char>, Seq<char>) {
        (self.key@, self.value@)
    }
}

/// The pairs that a sequence of entries holds.
pub open spec fn pairs(entries: Seq<Entry>) -> Seq<(Seq<char>, Seq<char>)> {
    Seq::new(entries.len(), |i: int| entries[i].pair())
}

impl View for StringMap {
    type V = Seq<(Seq<char>, Seq<char>)>;

    closed spec fn view(&self) -> Seq<(Seq<char>, Seq<char>)> {
        pairs(self.entries@)
    }
}

impl StringMap {
    #[verifier::type_invariant]
    pub open spec fn keys_distinct(&self) -> bool {
        keys_unique(self@)
    }

    /// Keys are unique.
    pub open spec fn wf(&self) -> bool {
        keys_unique(self@)
    }

    /// The value bound to `k`.
    pub open spec fn spec_get(&self, k: Seq<char>) -> Option<Seq<char>> {
        lookup(self@, k)
    }

    pub fn new() -> (r: StringMap)
        ensures
            r@ == Seq::<(Seq<char>, Seq<char>)>::empty(),
            r.wf(),
    {
        StringMap { entries: Vec::new() }
    }

    pub fn len(&self) -> (r: usize)
        ensures
            r == self@.len(),
    {
        self.entries.len()
    }

    /// The key and value at position `i`.
    pub fn entry_at(&self, i: usize) -> (r: (&String, &String))
        requires
            i < self@.len(),
        ensures
            (r.0@, r.1@) == self@[i as int],
    {
        let e = &self.entries[i];
        (&e.key, &e.value)
    }

    /// The position of `k`, or the length when absent.
    pub fn position_of(&self, k: &String) -> (r: usize)
        ensures
            r == position(self@, k@),
    {
        proof {
            lemma_position_bounds(self@, k@);
        }
        let mut i: usize = 0;
        while i < self.entries.len()
            invariant
                i <= self@.len(),
                forall|j: int| 0 <= j < i ==> self@[j].0 != k@,
            decreases self@.len() - i,
        {
            if self.entries[i].key == *k {
                proof {
                    self.lemma_position_first(k@, i as int);
                }
                return i;
            }
            i = i + 1;
        }
        proof {
            self.lemma_position_first(k@, i as int);
        }
        i
    }

    proof fn lemma_position_first(&self, k: Seq<char>, i: int)
        requires
            0 <= i <= self@.len(),
            i < self@.len() ==> self@[i].0 == k,
            forall|j: int| 0 <= j < i ==> self@[j].0 != k,
        ensures
            position(self@, k) == i,
    {
        lemma_position_bounds(self@, k);
        let p = position(self@, k);
        if p < i {
        } else if p > i {
            assert(self@[i].0 == k);
        }
    }

    /// The value bound to `k`.
    pub fn get(&self, k: &String) -> (r: Option<&String>)
        ensures
            match r {
                Some(v) => self.spec_get(k@) == Some(v@),
                None => self.spec_get(k@) is None,
            },
    {
        let i = self.position_of(k);
        proof {
            use_type_invariant(self);
            lemma_position_bounds(self@, k@);
        }
        if i < self.entries.len() {
            proof {
                lemma_lookup_at(self@, i as int);
            }
            Some(&self.entries[i].value)
        } else {
            proof {
                lemma_lookup_absent(self@, k@);
            }
            None
        }
    }

    /// Bind `k` to `v`: replaced in place where `k` is present, else appended.
    pub fn insert(&mut self, k: String, v: String)
        ensures
            final(self)@ == bind(old(self)@, k@, v@),
            final(self).wf(),
            final(self).spec_get(k@) == Some(v@),
            forall|k2: Seq<char>| k2 != k@ ==> final(self).spec_get(k2) == old(self).spec_get(k2),
    {
        proof {
            use_type_invariant(&*self);
            lemma_bind(self@, k@, v@);
            lemma_position_bounds(self@, k@);
        }
        let ghost before = self@;
        let i = self.position_of(&k);
        let ghost kv = k@;
        let ghost vv = v@;
        let mut taken = StringMap::new();
        std::mem::swap(self, &mut taken);
        let StringMap { mut entries } = taken;
        assert(pairs(entries@) == before);
        if i < entries.len() {
            entries.set(i, Entry { key: k, value: v });
        } else {
            entries.push(Entry { key: k, value: v });
        }
        assert(pairs(entries@) =~= bind(before, kv, vv));
        *self = StringMap { entries };
    }

    /// A copy with the same entries.
    pub fn duplicate(&self) -> (r: StringMap)
        ensures
            r@ == self@,
    {
        proof {
            use_type_invariant(self);
        }
        let mut out: Vec<Entry> = Vec::new();
        let mut i: usize = 0;
        while i < self.entries.len()
            invariant
                i <= self.entries@.len(),
                out@.len() == i,
                forall|j: int| 0 <= j < i ==> out@[j].pair() == self.entries@[j].pair(),
            decreases self.entries@.len() - i,
        {
            let e = &self.entries[i];
            out.push(Entry { key: e.key.clone(), value: e.value.clone() });
            i = i + 1;
        }
        assert(pairs(out@) =~= self@);
        StringMap { entries: out }
    }

    /// Bind every entry of `other`, in its order, into `self`.
    pub fn extend_from(&mut self, other: &StringMap)
        ensures
            final(self)@ == bind_all(old(self)@, other@),
            final(self).wf(),
    {
        proof {
            use_type_invariant(&*self);
        }
        let ghost start = self@;
        let mut i: usize = 0;
        while i < other.entries.len()
            invariant
                i <= other@.len(),
                self.wf(),
                self@ == bind_all(start, other@.subrange(0, i as int)),
            decreases other@.len() - i,
        {
            let e = &other.entries[i];
            let ghost prev = other@.subrange(0, i as int);
            self.insert(e.key.clone(), e.value.clone());
            proof {
                let next = other@.subrange(0, i + 1);
                assert(next.drop_last() =~= prev);
                assert(next.last() == other@[i as int]);
            }
            i = i + 1;
        }
        assert(other@.subrange(0, other@.len() as int) =~= other@);
    }
}

} // verus!
