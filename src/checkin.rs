//! The check-in document: server policy and the feature flags with their
//! variants and payloads, and the feature facts derived from it.
use crate::compression::ServerOptions;
use crate::json::{string_array_of, string_array_text};
use crate::string_map::{bind_all, StringMap};
use vstd::prelude::*;

verus! {

/// One flag's record: its variant, and an optional payload. Both are JSON text;
/// the payload is the text the server double-encoded inside a JSON string.
pub struct Feature {
    pub variant: String,
    pub payload: Option<String>,
}

/// A flag name with its record.
pub struct Flag {
    pub name: String,
    pub feature: Feature,
}

/// A check-in document. Flag names are unique; flags keep the server's order.
pub struct Checkin {
    pub server_options: ServerOptions,
    flags: Vec<Flag>,
}

/// A feature as plain values: the variant text and the payload text.
pub type FeatureView = (Seq<char>, Option<Seq<char>>);

pub open spec fn opt_view(o: Option<String>) -> Option<Seq<char>> {
    match o {
        Some(s) => Some(s@),
        None => None,
    }
}

impl View for Feature {
    type V = FeatureView;

    open spec fn view(&self) -> FeatureView {
        (self.variant@, opt_view(self.payload))
    }
}

impl Flag {
    pub open spec fn named(&self) -> (Seq<char>, FeatureView) {
        (self.name@, self.feature@)
    }
}

/// No name occurs twice.
pub open spec fn names_unique(flags: Seq<(Seq<char>, FeatureView)>) -> bool {
    forall|i: int, j: int|
        0 <= i < flags.len() && 0 <= j < flags.len() && i != j ==> flags[i].0 != flags[j].0
}

/// The record of the flag named `name`.
pub open spec fn flag_lookup(flags: Seq<(Seq<char>, FeatureView)>, name: Seq<char>) -> Option<
    FeatureView,
>
    decreases flags.len(),
{
    if flags.len() == 0 {
        None
    } else if flags.last().0 == name {
        Some(flags.last().1)
    } else {
        flag_lookup(flags.drop_last(), name)
    }
}

pub open spec fn active_flags_key() -> Seq<char> {
    seq!['$', 'a', 'c', 't', 'i', 'v', 'e', '_', 'f', 'e', 'a', 't', 'u', 'r', 'e', '_', 'f', 'l', 'a', 'g', 's']
}

pub open spec fn feature_key_prefix() -> Seq<char> {
    seq!['$', 'f', 'e', 'a', 't', 'u', 'r', 'e', '/']
}

/// The facts one flag contributes: `$feature/<name>` bound to its variant.
pub open spec fn flag_fact(f: (Seq<char>, FeatureView)) -> (Seq<char>, Seq<char>) {
    (feature_key_prefix() + f.0, f.1.0)
}

/// The feature facts of a set of flags: `$active_feature_flags` bound to the
/// array of flag names, then one `$feature/<name>` per flag bound to its variant.
pub open spec fn feature_facts_of(flags: Seq<(Seq<char>, FeatureView)>) -> Seq<(Seq<char>, Seq<char>)> {
    bind_all(
        seq![(active_flags_key(), string_array_text(flags.map_values(|f: (Seq<char>, FeatureView)| f.0)))],
        flags.map_values(|f: (Seq<char>, FeatureView)| flag_fact(f)),
    )
}

impl View for Checkin {
    type V = (ServerOptions, Seq<(Seq<char>, FeatureView)>);

    closed spec fn view(&self) -> (ServerOptions, Seq<(Seq<char>, FeatureView)>) {
        (self.server_options, Seq::new(self.flags@.len(), |i: int| self.flags@[i].named()))
    }
}

impl Feature {
    pub fn duplicate(&self) -> (r: Feature)
        ensures
            r@ == self@,
    {
        let payload = match &self.payload {
            Some(p) => Some(p.clone()),
            None => None,
        };
        Feature { variant: self.variant.clone(), payload }
    }

    /// Whether two records are the same.
    pub fn same_as(&self, other: &Feature) -> (r: bool)
        ensures
            r == (self@ == other@),
    {
        if self.variant != other.variant {
            return false;
        }
        match (&self.payload, &other.payload) {
            (Some(a), Some(b)) => *a == *b,
            (None, None) => true,
            _ => false,
        }
    }
}

impl Checkin {
    pub open spec fn flags(&self) -> Seq<(Seq<char>, FeatureView)> {
        self@.1
    }

    pub open spec fn wf(&self) -> bool {
        names_unique(self.flags())
    }

    /// The document a transport without a server reports: default policy, no flags.
    pub fn empty() -> (r: Checkin)
        ensures
            r.wf(),
            r@.0.compression_algorithms.zstd,
            r.flags().len() == 0,
    {
        let r = Checkin { server_options: ServerOptions::default(), flags: Vec::new() };
        assert(r.flags() =~= Seq::<(Seq<char>, FeatureView)>::empty());
        r
    }

    /// The number of flags.
    pub fn flag_count(&self) -> (r: usize)
        ensures
            r == self.flags().len(),
    {
        self.flags.len()
    }

    /// The flag at position `i`.
    pub fn flag_at(&self, i: usize) -> (r: &Flag)
        requires
            i < self.flags().len(),
        ensures
            r.named() == self.flags()[i as int],
    {
        &self.flags[i]
    }

    /// Add the flag `name`, replacing the record of a flag already so named.
    pub fn set_flag(&mut self, name: String, feature: Feature)
        requires
            old(self).wf(),
        ensures
            final(self).wf(),
            final(self)@.0 == old(self)@.0,
            flag_lookup(final(self).flags(), name@) == Some(feature@),
            forall|n: Seq<char>|
                n != name@ ==> flag_lookup(final(self).flags(), n) == flag_lookup(
                    old(self).flags(),
                    n,
                ),
    {
        let ghost before = self.flags();
        let mut i: usize = 0;
        while i < self.flags.len()
            invariant
                i <= self.flags@.len(),
                self.flags() == before,
                before == old(self).flags(),
                self.server_options == old(self).server_options,
                names_unique(before),
                forall|j: int| 0 <= j < i ==> before[j].0 != name@,
            decreases self.flags@.len() - i,
        {
            if self.flags[i].name == name {
                let ghost at = i as int;
                let ghost fv = feature@;
                assert(before[at].0 == name@);
                self.flags.set(i, Flag { name, feature });
                proof {
                    assert(self.flags() =~= before.update(at, (before[at].0, fv)));
                    lemma_flag_lookup_update(before, at, fv);
                }
                return;
            }
            i = i + 1;
        }
        let ghost entry = (name@, feature@);
        self.flags.push(Flag { name, feature });
        proof {
            assert(self.flags() =~= before.push(entry));
            assert(self.flags().drop_last() =~= before);
            lemma_flag_lookup_push(before, entry);
            assert forall|n: Seq<char>| n != name@ implies flag_lookup(self.flags(), n)
                == flag_lookup(before, n) by {
                assert(self.flags().last().0 == entry.0);
                assert(flag_lookup(self.flags(), n) == flag_lookup(self.flags().drop_last(), n));
            }
        }
    }

    /// The record of the flag named `name`.
    pub fn get_feature(&self, name: &String) -> (r: Option<Feature>)
        requires
            self.wf(),
        ensures
            match r {
                Some(f) => flag_lookup(self.flags(), name@) == Some(f@),
                None => flag_lookup(self.flags(), name@) is None,
            },
    {
        let mut i: usize = self.flags.len();
        while i > 0
            invariant
                i <= self.flags@.len(),
                self.wf(),
                forall|j: int| i <= j < self.flags@.len() ==> self.flags()[j].0 != name@,
            decreases i,
        {
            i = i - 1;
            if self.flags[i].name == *name {
                proof {
                    lemma_flag_lookup_at(self.flags(), i as int);
                }
                return Some(self.flags[i].feature.duplicate());
            }
        }
        proof {
            lemma_flag_lookup_absent(self.flags(), name@);
        }
        None
    }

    /// Whether two documents are the same: equal policy and the same flags in
    /// the same order.
    pub fn same_as(&self, other: &Checkin) -> (r: bool)
        ensures
            r == (self@ == other@),
    {
        if self.server_options != other.server_options {
            return false;
        }
        if self.flags.len() != other.flags.len() {
            assert(self@.1.len() != other@.1.len());
            return false;
        }
        let mut i: usize = 0;
        while i < self.flags.len()
            invariant
                i <= self.flags@.len(),
                self.flags@.len() == other.flags@.len(),
                forall|j: int| 0 <= j < i ==> self.flags()[j] == other.flags()[j],
            decreases self.flags@.len() - i,
        {
            let a = &self.flags[i];
            let b = &other.flags[i];
            if a.name != b.name || !a.feature.same_as(&b.feature) {
                assert(self.flags()[i as int] != other.flags()[i as int]);
                return false;
            }
            i = i + 1;
        }
        assert forall|j: int| 0 <= j < self@.1.len() implies self@.1[j] == other@.1[j] by {
            assert(self.flags()[j] == other.flags()[j]);
        }
        assert(self@.1 =~= other@.1);
        true
    }

    pub fn duplicate(&self) -> (r: Checkin)
        ensures
            r@ == self@,
    {
        let mut flags: Vec<Flag> = Vec::new();
        let mut i: usize = 0;
        while i < self.flags.len()
            invariant
                i <= self.flags@.len(),
                flags@.len() == i,
                forall|j: int| 0 <= j < i ==> flags@[j].named() == self.flags@[j].named(),
            decreases self.flags@.len() - i,
        {
            let f = &self.flags[i];
            flags.push(Flag { name: f.name.clone(), feature: f.feature.duplicate() });
            i = i + 1;
        }
        let r = Checkin { server_options: self.server_options, flags };
        assert(r@.1 =~= self@.1);
        r
    }

    /// The feature facts this document gives every event.
    pub fn as_feature_facts(&self) -> (r: StringMap)
        ensures
            r.wf(),
            r@ == feature_facts_of(self.flags()),
    {
        let ghost flags = self.flags();
        let ghost facts = flags.map_values(|f: (Seq<char>, FeatureView)| flag_fact(f));
        let mut names: Vec<String> = Vec::new();
        let mut i: usize = 0;
        while i < self.flags.len()
            invariant
                i <= self.flags@.len(),
                flags == self.flags(),
                names@.len() == i,
                forall|j: int| 0 <= j < i ==> names@[j]@ == flags[j].0,
            decreases self.flags@.len() - i,
        {
            names.push(self.flags[i].name.clone());
            i = i + 1;
        }
        assert(names@.map_values(|s: String| s@) =~= flags.map_values(
            |f: (Seq<char>, FeatureView)| f.0,
        ));
        let mut out = StringMap::new();
        proof {
            reveal_strlit("$active_feature_flags");
        }
        let listed = string_array_of(&names);
        let active = String::from_str("$active_feature_flags");
        assert(active@ =~= active_flags_key());
        out.insert(active, listed);
        let ghost start = out@;
        assert(start =~= seq![
            (active_flags_key(), string_array_text(flags.map_values(|f: (Seq<char>, FeatureView)| f.0))),
        ]);
        proof {
            reveal_strlit("$feature/");
        }
        let mut i: usize = 0;
        while i < self.flags.len()
            invariant
                i <= self.flags@.len(),
                flags == self.flags(),
                facts == flags.map_values(|f: (Seq<char>, FeatureView)| flag_fact(f)),
                out.wf(),
                out@ == bind_all(start, facts.subrange(0, i as int)),
            decreases self.flags@.len() - i,
        {
            let f = &self.flags[i];
            proof {
                reveal_strlit("$feature/");
            }
            let mut key = String::from_str("$feature/");
            key.append(f.name.as_str());
            assert(key@ =~= feature_key_prefix() + f.name@);
            assert(f.named() == flags[i as int]);
            let ghost prev = facts.subrange(0, i as int);
            out.insert(key, f.feature.variant.clone());
            proof {
                let next = facts.subrange(0, i + 1);
                assert(next.drop_last() =~= prev);
                assert(next.last() == facts[i as int]);
            }
            i = i + 1;
        }
        assert(facts.subrange(0, self.flags@.len() as int) =~= facts);
        out
    }
}

proof fn lemma_flag_lookup_update(
    flags: Seq<(Seq<char>, FeatureView)>,
    at: int,
    fv: FeatureView,
)
    requires
        names_unique(flags),
        0 <= at < flags.len(),
    ensures
        names_unique(flags.update(at, (flags[at].0, fv))),
        flag_lookup(flags.update(at, (flags[at].0, fv)), flags[at].0) == Some(fv),
        forall|n: Seq<char>|
            n != flags[at].0 ==> flag_lookup(flags.update(at, (flags[at].0, fv)), n)
                == flag_lookup(flags, n),
    decreases flags.len(),
{
    let r = flags.update(at, (flags[at].0, fv));
    assert forall|i: int, j: int|
        0 <= i < r.len() && 0 <= j < r.len() && i != j implies r[i].0 != r[j].0 by {
        assert(r[i].0 == flags[i].0 && r[j].0 == flags[j].0);
    }
    if at == flags.len() - 1 {
        assert(r.drop_last() =~= flags.drop_last());
        assert forall|n: Seq<char>| n != flags[at].0 implies flag_lookup(r, n) == flag_lookup(
            flags,
            n,
        ) by {
            assert(r.last().0 == flags[at].0);
            assert(flags.last().0 == flags[at].0);
            assert(flag_lookup(r, n) == flag_lookup(r.drop_last(), n));
            assert(flag_lookup(flags, n) == flag_lookup(flags.drop_last(), n));
        }
    } else {
        let d = flags.drop_last();
        assert(r.drop_last() =~= d.update(at, (flags[at].0, fv)));
        assert(d[at] == flags[at]);
        assert forall|i: int, j: int|
            0 <= i < d.len() && 0 <= j < d.len() && i != j implies d[i].0 != d[j].0 by {
            assert(d[i] == flags[i] && d[j] == flags[j]);
        }
        lemma_flag_lookup_update(d, at, fv);
        assert(r.last() == flags.last());
        assert(flags.last().0 != flags[at].0);
        assert forall|n: Seq<char>| n != flags[at].0 implies flag_lookup(r, n) == flag_lookup(
            flags,
            n,
        ) by {
            if r.last().0 != n {
                assert(flag_lookup(r, n) == flag_lookup(r.drop_last(), n));
                assert(flag_lookup(flags, n) == flag_lookup(d, n));
                assert(d[at].0 == flags[at].0);
                assert(flag_lookup(d.update(at, (d[at].0, fv)), n) == flag_lookup(d, n));
            } else {
                assert(flag_lookup(r, n) == Some(r.last().1));
                assert(flag_lookup(flags, n) == Some(flags.last().1));
            }
        }
    }
}

proof fn lemma_flag_lookup_push(flags: Seq<(Seq<char>, FeatureView)>, entry: (Seq<char>, FeatureView))
    requires
        names_unique(flags),
        forall|j: int| 0 <= j < flags.len() ==> flags[j].0 != entry.0,
    ensures
        names_unique(flags.push(entry)),
{
    let r = flags.push(entry);
    assert forall|i: int, j: int|
        0 <= i < r.len() && 0 <= j < r.len() && i != j implies r[i].0 != r[j].0 by {
        if i < flags.len() && j < flags.len() {
            assert(r[i] == flags[i] && r[j] == flags[j]);
        } else if i < flags.len() {
            assert(r[i] == flags[i]);
        } else if j < flags.len() {
            assert(r[j] == flags[j]);
        }
    }
}

proof fn lemma_flag_lookup_at(flags: Seq<(Seq<char>, FeatureView)>, i: int)
    requires
        names_unique(flags),
        0 <= i < flags.len(),
    ensures
        flag_lookup(flags, flags[i].0) == Some(flags[i].1),
    decreases flags.len(),
{
    if i != flags.len() - 1 {
        assert(flags.drop_last()[i] == flags[i]);
        lemma_flag_lookup_at(flags.drop_last(), i);
    }
}

proof fn lemma_flag_lookup_absent(flags: Seq<(Seq<char>, FeatureView)>, name: Seq<char>)
    requires
        forall|j: int| 0 <= j < flags.len() ==> flags[j].0 != name,
    ensures
        flag_lookup(flags, name) is None,
    decreases flags.len(),
{
    if flags.len() > 0 {
        lemma_flag_lookup_absent(flags.drop_last(), name);
    }
}

} // verus!
