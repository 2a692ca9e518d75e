//! The startup seed for identity and session, and the reading of the
//! legacy CI envelope into it.
use crate::identity::{DeviceId, DistinctId};
use crate::string_map::{bind_all, StringMap};
use vstd::prelude::*;

verus! {

/// A group kind with its member id, which a seed may leave null.
pub struct GroupSeed {
    pub name: String,
    pub member: Option<String>,
}

/// Identity and session hints supplied at startup, plus extra properties to
/// merge into the facts.
pub struct Correlation {
    pub distinct_id: Option<DistinctId>,
    pub anon_distinct_id: Option<String>,
    pub session_id: Option<String>,
    pub window_id: Option<String>,
    pub device_id: Option<DeviceId>,
    pub groups: Vec<GroupSeed>,
    pub properties: StringMap,
}

/// The legacy CI envelope: its own keys, with a direct seed laid over it.
pub struct DetsysTsGitHubAction {
    pub repository: String,
    pub run: Option<String>,
    pub run_differentiator: Option<String>,
    pub workflow: Option<String>,
    pub groups: Vec<GroupSeed>,
    pub extra_properties: Correlation,
}

/// The two shapes a seed document may take.
pub enum CorrelationInputs {
    DetSysTs(DetsysTsGitHubAction),
    Direct(Correlation),
}

pub open spec fn opt_text(o: Option<String>) -> Option<Seq<char>> {
    match o {
        Some(s) => Some(s@),
        None => None,
    }
}

pub open spec fn seed_view(g: GroupSeed) -> (Seq<char>, Option<Seq<char>>) {
    (g.name@, opt_text(g.member))
}

pub open spec fn seeds_view(gs: Seq<GroupSeed>) -> Seq<(Seq<char>, Option<Seq<char>>)> {
    gs.map_values(|g: GroupSeed| seed_view(g))
}

/// The groups of `gs` that name a member, in order.
pub open spec fn present(gs: Seq<(Seq<char>, Option<Seq<char>>)>) -> Seq<(Seq<char>, Seq<char>)>
    decreases gs.len(),
{
    if gs.len() == 0 {
        Seq::empty()
    } else {
        let rest = present(gs.drop_last());
        match gs.last().1 {
            Some(m) => rest.push((gs.last().0, m)),
            None => rest,
        }
    }
}

/// The groups of a seed as a map: members only, a later entry winning.
pub open spec fn groups_map_of(gs: Seq<(Seq<char>, Option<Seq<char>>)>) -> Seq<(Seq<char>, Seq<char>)> {
    bind_all(Seq::empty(), present(gs))
}

impl Correlation {
    /// The groups of this seed view.
    pub open spec fn spec_groups(&self) -> Seq<(Seq<char>, Option<Seq<char>>)> {
        seeds_view(self.groups@)
    }

    /// A seed that supplies nothing.
    pub fn empty() -> (r: Correlation)
        ensures
            r.distinct_id is None,
            r.anon_distinct_id is None,
            r.session_id is None,
            r.window_id is None,
            r.device_id is None,
            r.groups@.len() == 0,
            r.properties@.len() == 0,
            r.properties.wf(),
    {
        Correlation {
            distinct_id: None,
            anon_distinct_id: None,
            session_id: None,
            window_id: None,
            device_id: None,
            groups: Vec::new(),
            properties: StringMap::new(),
        }
    }

    /// The groups that name a member, as a map in which a later entry wins.
    pub fn groups_as_map(&self) -> (r: StringMap)
        ensures
            r.wf(),
            r@ == groups_map_of(self.spec_groups()),
    {
        let ghost gs = self.spec_groups();
        let mut out = StringMap::new();
        let ghost start = out@;
        let mut i: usize = 0;
        while i < self.groups.len()
            invariant
                i <= self.groups@.len(),
                gs == self.spec_groups(),
                start == Seq::<(Seq<char>, Seq<char>)>::empty(),
                out.wf(),
                out@ == bind_all(start, present(gs.subrange(0, i as int))),
            decreases self.groups@.len() - i,
        {
            let g = &self.groups[i];
            let ghost prev = gs.subrange(0, i as int);
            let ghost next = gs.subrange(0, i + 1);
            assert(next.drop_last() =~= prev);
            assert(next.last() == seed_view(self.groups@[i as int]));
            match &g.member {
                Some(m) => {
                    out.insert(g.name.clone(), m.clone());
                    proof {
                        let p = present(prev);
                        assert(present(next) == p.push((g.name@, m@)));
                        assert(present(next).drop_last() =~= p);
                    }
                },
                None => {},
            }
            i = i + 1;
        }
        assert(gs.subrange(0, self.groups@.len() as int) =~= gs);
        out
    }

    /// Resolve a seed document of either shape; an absent one supplies nothing.
    pub fn from_inputs(inputs: Option<CorrelationInputs>) -> (r: Correlation)
        ensures
            inputs is None ==> r.distinct_id is None && r.anon_distinct_id is None
                && r.session_id is None && r.window_id is None && r.device_id is None
                && r.groups@.len() == 0 && r.properties@.len() == 0,
            inputs matches Some(CorrelationInputs::Direct(c)) ==> r == c,
            inputs matches Some(CorrelationInputs::DetSysTs(a)) ==> stands_for(a, r),
    {
        match inputs {
            Some(CorrelationInputs::DetSysTs(a)) => a.into_correlation(),
            Some(CorrelationInputs::Direct(c)) => c,
            None => Correlation::empty(),
        }
    }
}

/// `o`, or else `fallback`.
pub open spec fn or_else<T>(o: Option<T>, fallback: Option<T>) -> Option<T> {
    match o {
        Some(v) => Some(v),
        None => fallback,
    }
}

pub open spec fn opt_device(o: Option<DeviceId>) -> Option<Seq<char>> {
    match o {
        Some(d) => Some(d@),
        None => None,
    }
}

pub open spec fn opt_distinct(o: Option<DistinctId>) -> Option<Seq<char>> {
    match o {
        Some(d) => Some(d@),
        None => None,
    }
}

/// `r` is the direct seed that the legacy envelope `a` stands for.
pub open spec fn stands_for(a: DetsysTsGitHubAction, r: Correlation) -> bool {
    &&& opt_distinct(r.distinct_id) == Some(
        or_else(opt_distinct(a.extra_properties.distinct_id), Some(a.repository@))->0,
    )
    &&& opt_text(r.anon_distinct_id) == opt_text(a.extra_properties.anon_distinct_id)
    &&& opt_text(r.session_id) == or_else(opt_text(a.extra_properties.session_id), opt_text(a.run))
    &&& opt_text(r.window_id) == or_else(
        opt_text(a.extra_properties.window_id),
        opt_text(a.run_differentiator),
    )
    &&& opt_device(r.device_id) == or_else(
        opt_device(a.extra_properties.device_id),
        opt_text(a.workflow),
    )
    &&& groups_map_of(r.spec_groups()) == groups_map_of(
        seeds_view(a.groups@) + seeds_view(a.extra_properties.groups@),
    )
    &&& forall|j: int| 0 <= j < r.groups@.len() ==> (#[trigger] r.groups@[j]).member is Some
    &&& r.properties@ == a.extra_properties.properties@
}

impl DetsysTsGitHubAction {
    /// The direct seed this envelope stands for. Each overlay value wins over
    /// the envelope's own key (repository as the distinct id, run as the
    /// session, run differentiator as the window, workflow as the device).
    /// Groups of both with a member are merged, the overlay's winning; null
    /// groups are dropped. The overlay's extra properties are kept.
    pub fn into_correlation(self) -> (r: Correlation)
        ensures
            stands_for(self, r),
    {
        let DetsysTsGitHubAction { repository, run, run_differentiator, workflow, groups, extra_properties } = self;
        let Correlation {
            distinct_id,
            anon_distinct_id,
            session_id,
            window_id,
            device_id,
            groups: overlay_groups,
            properties,
        } = extra_properties;
        let ghost all = seeds_view(groups@) + seeds_view(overlay_groups@);
        let mut merged_seeds: Vec<GroupSeed> = groups;
        let mut extra = overlay_groups;
        let ghost first = seeds_view(merged_seeds@);
        let ghost second = seeds_view(extra@);
        merged_seeds.append(&mut extra);
        assert(seeds_view(merged_seeds@) =~= first + second);
        let merged = Correlation {
            distinct_id: None,
            anon_distinct_id: None,
            session_id: None,
            window_id: None,
            device_id: None,
            groups: merged_seeds,
            properties: StringMap::new(),
        }.groups_as_map();
        let mut seeds: Vec<GroupSeed> = Vec::new();
        let mut i: usize = 0;
        while i < merged.len()
            invariant
                i <= merged@.len(),
                seeds@.len() == i,
                forall|j: int|
                    0 <= j < i ==> seed_view(#[trigger] seeds@[j]) == (merged@[j].0, Some(
                        merged@[j].1,
                    )),
            decreases merged@.len() - i,
        {
            let (k, v) = merged.entry_at(i);
            seeds.push(GroupSeed { name: k.clone(), member: Some(v.clone()) });
            i = i + 1;
        }
        proof {
            lemma_present_all_some(seeds_view(seeds@), merged@);
            lemma_rebind_unique(merged@);
            assert forall|j: int| 0 <= j < seeds@.len() implies (#[trigger] seeds@[j]).member is Some by {
                assert(seed_view(seeds@[j]).1 is Some);
            }
        }
        Correlation {
            distinct_id: match distinct_id {
                Some(d) => Some(d),
                None => Some(DistinctId::from(repository)),
            },
            anon_distinct_id,
            session_id: match session_id {
                Some(s) => Some(s),
                None => run,
            },
            window_id: match window_id {
                Some(w) => Some(w),
                None => run_differentiator,
            },
            device_id: match device_id {
                Some(d) => Some(d),
                None => match workflow {
                    Some(w) => Some(DeviceId::from(w)),
                    None => None,
                },
            },
            groups: seeds,
            properties,
        }
    }
}

/// Seeds that all name a member are their own members.
proof fn lemma_present_all_some(
    gs: Seq<(Seq<char>, Option<Seq<char>>)>,
    m: Seq<(Seq<char>, Seq<char>)>,
)
    requires
        gs.len() == m.len(),
        forall|j: int| 0 <= j < gs.len() ==> gs[j] == (m[j].0, Some(m[j].1)),
    ensures
        present(gs) == m,
    decreases gs.len(),
{
    if gs.len() > 0 {
        lemma_present_all_some(gs.drop_last(), m.drop_last());
        assert(m.drop_last().push(m.last()) =~= m);
    }
}

/// Binding the pairs of a map with unique keys, in order, gives the map back.
proof fn lemma_rebind_unique(m: Seq<(Seq<char>, Seq<char>)>)
    requires
        crate::string_map::keys_unique(m),
    ensures
        bind_all(Seq::empty(), m) == m,
    decreases m.len(),
{
    if m.len() > 0 {
        let d = m.drop_last();
        assert forall|i: int, j: int| 0 <= i < d.len() && 0 <= j < d.len() && i != j implies d[i].0
            != d[j].0 by {
            assert(d[i] == m[i] && d[j] == m[j]);
        }
        lemma_rebind_unique(d);
        crate::string_map::lemma_position_bounds(d, m.last().0);
        let p = crate::string_map::position(d, m.last().0);
        if p < d.len() {
            assert(d[p] == m[p]);
            assert(m[p].0 == m[m.len() - 1].0);
        }
        assert(d.push(m.last()) =~= m);
    }
}

} // verus!
