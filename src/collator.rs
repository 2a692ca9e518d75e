//! The collator: sole owner of identity, session, facts and groups. It takes
//! one signal at a time and says what follows: an event or flush to forward,
//! a record to persist, or session properties to reply with.
use crate::clock::now_rfc3339;
use crate::correlation::{groups_map_of, or_else, opt_device, opt_distinct, opt_text, Correlation};
use crate::event::{Event, EventProperties, EventView, Pairs, LIB_NAME, LIB_VERSION};
use crate::identity::{random_uuid, time_ordered_uuid, AnonymousDistinctId, DeviceId, DistinctId};
use crate::json::{encode_string, json_string_text, object_of, object_text, string_object_of, string_object_text};
use crate::storage::{StoredProperties, StoredView};
use crate::string_map::{bind, bind_all, keys_unique, StringMap};
use vstd::prelude::*;

verus! {

/// What the application asks of the collator.
pub enum RawSignal {
    Fact { key: String, value: String },
    UpdateFeatureFacts(StringMap),
    Event { event_name: String, properties: Option<StringMap> },
    GetSessionProperties,
    FlushNow,
    Identify(DistinctId),
    AddGroup { group_name: String, group_member_id: String },
    Alias(String),
    Reset,
}

/// What the collator sends on to the submitter.
pub enum CollatedSignal {
    Event(Event),
    FlushNow,
}

/// What handling one signal calls for.
pub struct CollatorOutput {
    pub forward: Option<CollatedSignal>,
    pub persist: Option<StoredProperties>,
    pub reply: Option<StringMap>,
}

/// What the outside supplies when a signal is handled: the system snapshot
/// (JSON text values), the time, a fresh event id and a fresh anonymous id.
pub struct Stamp {
    pub snapshot: StringMap,
    pub timestamp: String,
    pub event_uuid: String,
    pub fresh_anon_id: AnonymousDistinctId,
}

/// The collator's state.
pub struct Collator {
    session_id: String,
    anon_distinct_id: AnonymousDistinctId,
    distinct_id: Option<DistinctId>,
    device_id: DeviceId,
    facts: StringMap,
    feature_facts: StringMap,
    groups: StringMap,
}

pub enum SignalView {
    Fact(Seq<char>, Seq<char>),
    UpdateFeatureFacts(Pairs),
    Event(Seq<char>, Option<Pairs>),
    GetSessionProperties,
    FlushNow,
    Identify(Seq<char>),
    AddGroup(Seq<char>, Seq<char>),
    Alias(Seq<char>),
    Reset,
}

pub enum CollatedView {
    Event(EventView),
    FlushNow,
}

pub struct OutputView {
    pub forward: Option<CollatedView>,
    pub persist: Option<StoredView>,
    pub reply: Option<Pairs>,
}

pub struct StampView {
    pub snapshot: Pairs,
    pub timestamp: Seq<char>,
    pub event_uuid: Seq<char>,
    pub fresh_anon: Seq<char>,
}

pub struct CollatorView {
    pub session_id: Seq<char>,
    pub anon: Seq<char>,
    pub distinct: Option<Seq<char>>,
    pub device: Seq<char>,
    pub facts: Pairs,
    pub feature_facts: Pairs,
    pub groups: Pairs,
}

impl View for RawSignal {
    type V = SignalView;

    open spec fn view(&self) -> SignalView {
        match self {
            RawSignal::Fact { key, value } => SignalView::Fact(key@, value@),
            RawSignal::UpdateFeatureFacts(ff) => SignalView::UpdateFeatureFacts(ff@),
            RawSignal::Event { event_name, properties } => SignalView::Event(
                event_name@,
                crate::event::opt_pairs(*properties),
            ),
            RawSignal::GetSessionProperties => SignalView::GetSessionProperties,
            RawSignal::FlushNow => SignalView::FlushNow,
            RawSignal::Identify(d) => SignalView::Identify(d@),
            RawSignal::AddGroup { group_name, group_member_id } => SignalView::AddGroup(
                group_name@,
                group_member_id@,
            ),
            RawSignal::Alias(a) => SignalView::Alias(a@),
            RawSignal::Reset => SignalView::Reset,
        }
    }
}

impl View for CollatedSignal {
    type V = CollatedView;

    open spec fn view(&self) -> CollatedView {
        match self {
            CollatedSignal::Event(e) => CollatedView::Event(e@),
            CollatedSignal::FlushNow => CollatedView::FlushNow,
        }
    }
}

impl View for CollatorOutput {
    type V = OutputView;

    open spec fn view(&self) -> OutputView {
        OutputView {
            forward: match self.forward {
                Some(f) => Some(f@),
                None => None,
            },
            persist: match self.persist {
                Some(p) => Some(p@),
                None => None,
            },
            reply: crate::event::opt_pairs(self.reply),
        }
    }
}

impl View for Stamp {
    type V = StampView;

    open spec fn view(&self) -> StampView {
        StampView {
            snapshot: self.snapshot@,
            timestamp: self.timestamp@,
            event_uuid: self.event_uuid@,
            fresh_anon: self.fresh_anon_id@,
        }
    }
}

impl View for Collator {
    type V = CollatorView;

    closed spec fn view(&self) -> CollatorView {
        CollatorView {
            session_id: self.session_id@,
            anon: self.anon_distinct_id@,
            distinct: opt_distinct(self.distinct_id),
            device: self.device_id@,
            facts: self.facts@,
            feature_facts: self.feature_facts@,
            groups: self.groups@,
        }
    }
}

/// A state is well formed when its anonymous id is not empty and its maps
/// have unique keys.
pub open spec fn state_wf(c: CollatorView) -> bool {
    &&& c.anon.len() > 0
    &&& keys_unique(c.facts)
    &&& keys_unique(c.feature_facts)
    &&& keys_unique(c.groups)
}

/// A stamp is well formed when its fresh anonymous id is not empty.
pub open spec fn stamp_wf(st: StampView) -> bool {
    st.fresh_anon.len() > 0
}

/// The id events report: the distinct id if set, else the anonymous id.
pub open spec fn reported_id(c: CollatorView) -> Seq<char> {
    match c.distinct {
        Some(d) => d,
        None => c.anon,
    }
}

/// The event named `name` composed from state `c` at stamp `st`.
pub open spec fn event_of(c: CollatorView, st: StampView, name: Seq<char>, props: Option<Pairs>) -> EventView {
    EventView {
        name,
        distinct_id: reported_id(c),
        uuid: st.event_uuid,
        timestamp: st.timestamp,
        anon_distinct_id: c.anon,
        device_id: c.device,
        lib: LIB_NAME@,
        lib_version: LIB_VERSION@,
        session_id: c.session_id,
        groups: c.groups,
        snapshot: st.snapshot,
        facts: c.facts,
        feature_facts: c.feature_facts,
        properties: props,
    }
}

/// The record persisted for state `c`.
pub open spec fn stored_of(c: CollatorView) -> StoredView {
    StoredView { anon: c.anon, distinct: c.distinct, device: c.device, groups: c.groups, checkin: None }
}

/// The session properties of state `c` at stamp `st`.
pub open spec fn session_properties_of(c: CollatorView, st: StampView) -> Pairs {
    bind(
        bind(
            bind(
                bind(Seq::empty(), "person_properties"@, object_text(st.snapshot)),
                "distinct_id"@,
                json_string_text(reported_id(c)),
            ),
            "$anon_distinct_id"@,
            json_string_text(c.anon),
        ),
        "groups"@,
        string_object_text(c.groups),
    )
}

pub open spec fn nothing() -> OutputView {
    OutputView { forward: None, persist: None, reply: None }
}

pub open spec fn forwarding(e: EventView) -> OutputView {
    OutputView { forward: Some(CollatedView::Event(e)), persist: None, reply: None }
}

/// The effect of one signal: the next state and what it calls for.
pub open spec fn step(c: CollatorView, sig: SignalView, st: StampView) -> (CollatorView, OutputView) {
    match sig {
        SignalView::Fact(k, v) => (CollatorView { facts: bind(c.facts, k, v), ..c }, nothing()),
        SignalView::UpdateFeatureFacts(ff) => (CollatorView { feature_facts: ff, ..c }, nothing()),
        SignalView::Event(name, props) => (c, forwarding(event_of(c, st, name, props))),
        SignalView::GetSessionProperties => (
            c,
            OutputView { forward: None, persist: None, reply: Some(session_properties_of(c, st)) },
        ),
        SignalView::FlushNow => (
            c,
            OutputView { forward: Some(CollatedView::FlushNow), persist: None, reply: None },
        ),
        SignalView::Identify(d) => {
            let next = CollatorView {
                anon: if c.distinct is Some {
                    st.fresh_anon
                } else {
                    c.anon
                },
                distinct: Some(d),
                ..c
            };
            (
                next,
                OutputView {
                    forward: Some(CollatedView::Event(event_of(next, st, "$identify"@, None))),
                    persist: Some(stored_of(next)),
                    reply: None,
                },
            )
        },
        SignalView::AddGroup(name, member) => {
            let next = CollatorView { groups: bind(c.groups, name, member), ..c };
            (next, OutputView { forward: None, persist: Some(stored_of(next)), reply: None })
        },
        SignalView::Alias(a) => (
            c,
            forwarding(
                event_of(
                    c,
                    st,
                    "$create_alias"@,
                    Some(bind(Seq::empty(), "alias"@, json_string_text(a))),
                ),
            ),
        ),
        SignalView::Reset => {
            let next = CollatorView { anon: st.fresh_anon, distinct: None, ..c };
            (next, OutputView { forward: None, persist: Some(stored_of(next)), reply: None })
        },
    }
}

/// The first non-empty id among the candidates.
pub open spec fn first_nonempty(candidates: Seq<Option<Seq<char>>>) -> Option<Seq<char>>
    decreases candidates.len(),
{
    if candidates.len() == 0 {
        None
    } else {
        match candidates[0] {
            Some(s) => if s.len() > 0 {
                Some(s)
            } else {
                first_nonempty(candidates.drop_first())
            },
            None => first_nonempty(candidates.drop_first()),
        }
    }
}

pub open spec fn stored_anon(s: Option<StoredProperties>) -> Option<Seq<char>> {
    match s {
        Some(p) => Some(p.anonymous_distinct_id@),
        None => None,
    }
}

pub open spec fn stored_distinct(s: Option<StoredProperties>) -> Option<Seq<char>> {
    match s {
        Some(p) => opt_distinct(p.distinct_id),
        None => None,
    }
}

pub open spec fn stored_device(s: Option<StoredProperties>) -> Option<Seq<char>> {
    match s {
        Some(p) => Some(p.device_id@),
        None => None,
    }
}

pub open spec fn opt_anon(o: Option<AnonymousDistinctId>) -> Option<Seq<char>> {
    match o {
        Some(a) => Some(a@),
        None => None,
    }
}

impl Stamp {
    /// The stamp for a signal handled now: the given snapshot, the current
    /// time, a fresh random event id and a fresh time-ordered anonymous id.
    pub fn capture(snapshot: StringMap) -> (r: Stamp)
        ensures
            r.snapshot@ == snapshot@,
            r.event_uuid@.len() == 36,
            r.fresh_anon_id@.len() == 36,
            stamp_wf(r@),
    {
        Stamp {
            snapshot,
            timestamp: now_rfc3339(),
            event_uuid: random_uuid(),
            fresh_anon_id: AnonymousDistinctId::new(),
        }
    }
}

impl RawSignal {
    /// Whether handling this signal reads the system snapshot.
    pub fn needs_snapshot(&self) -> (r: bool)
        ensures
            r == (self is Event || self is Identify || self is Alias || self is GetSessionProperties),
    {
        match self {
            RawSignal::Event { .. } | RawSignal::Identify(_) | RawSignal::Alias(_)
            | RawSignal::GetSessionProperties => true,
            _ => false,
        }
    }
}

/// What `first_nonempty` picks is not empty.
pub proof fn lemma_first_nonempty(candidates: Seq<Option<Seq<char>>>)
    ensures
        first_nonempty(candidates) is Some ==> first_nonempty(candidates)->0.len() > 0,
    decreases candidates.len(),
{
    if candidates.len() > 0 {
        lemma_first_nonempty(candidates.drop_first());
    }
}

fn pick_id(first: Option<String>, second: Option<String>, third: Option<String>) -> (r: Option<
    String,
>)
    ensures
        opt_text(r) == first_nonempty(seq![opt_text(first), opt_text(second), opt_text(third)]),
{
    let ghost cands = seq![opt_text(first), opt_text(second), opt_text(third)];
    assert(cands.drop_first() =~= seq![opt_text(second), opt_text(third)]);
    assert(cands.drop_first().drop_first() =~= seq![opt_text(third)]);
    assert(cands.drop_first().drop_first().drop_first() =~= Seq::<Option<Seq<char>>>::empty());
    proof {
        reveal_with_fuel(first_nonempty, 4);
    }
    match first {
        Some(s) if s.as_str().unicode_len() > 0 => {
            return Some(s);
        },
        _ => {},
    }
    match second {
        Some(s) if s.as_str().unicode_len() > 0 => {
            return Some(s);
        },
        _ => {},
    }
    match third {
        Some(s) if s.as_str().unicode_len() > 0 => Some(s),
        _ => None,
    }
}

impl Collator {
    pub closed spec fn wf(&self) -> bool {
        state_wf(self@)
    }

    /// A collator seeded, field by field, from the application's own values,
    /// then the stored record, then the correlation seed, then fresh ids.
    /// The anonymous id is the first non-empty candidate. The session comes
    /// from the seed or is fresh, never from storage. The seed's properties
    /// are merged into the facts and its groups with a member into the
    /// groups, the seed winning on a shared key.
    pub fn new(
        anonymous_distinct_id: Option<AnonymousDistinctId>,
        distinct_id: Option<DistinctId>,
        device_id: Option<DeviceId>,
        facts: StringMap,
        groups: StringMap,
        correlation: Correlation,
        stored: Option<StoredProperties>,
    ) -> (r: Collator)
        ensures
            r.wf(),
            correlation.session_id is Some ==> r@.session_id == correlation.session_id->0@,
            correlation.session_id is None ==> r@.session_id.len() == 36,
            ({
                let picked = first_nonempty(
                    seq![opt_anon(anonymous_distinct_id), stored_anon(stored), opt_text(correlation.anon_distinct_id)],
                );
                &&& picked is Some ==> r@.anon == picked->0
                &&& picked is None ==> r@.anon.len() == 36
            }),
            r@.distinct == or_else(
                opt_distinct(distinct_id),
                or_else(stored_distinct(stored), opt_distinct(correlation.distinct_id)),
            ),
            ({
                let picked = or_else(
                    opt_device(device_id),
                    or_else(stored_device(stored), opt_device(correlation.device_id)),
                );
                &&& picked is Some ==> r@.device == picked->0
                &&& picked is None ==> r@.device.len() == 45
            }),
            r@.facts == bind_all(facts@, correlation.properties@),
            r@.groups == bind_all(groups@, groups_map_of(correlation.spec_groups())),
            r@.feature_facts.len() == 0,
    {
        let mut facts = facts;
        facts.extend_from(&correlation.properties);
        let mut groups = groups;
        let seeded = correlation.groups_as_map();
        groups.extend_from(&seeded);
        let Correlation {
            distinct_id: seed_distinct,
            anon_distinct_id: seed_anon,
            session_id: seed_session,
            device_id: seed_device,
            ..
        } = correlation;
        let (stored_anon_id, stored_distinct_id, stored_device_id) = match stored {
            Some(p) => (Some(p.anonymous_distinct_id.0), p.distinct_id, Some(p.device_id)),
            None => (None, None, None),
        };
        let session_id = match seed_session {
            Some(s) => s,
            None => time_ordered_uuid(),
        };
        let anon = match pick_id(
            match anonymous_distinct_id {
                Some(a) => Some(a.0),
                None => None,
            },
            stored_anon_id,
            seed_anon,
        ) {
            Some(a) => AnonymousDistinctId::from(a),
            None => AnonymousDistinctId::new(),
        };
        let distinct_id = match distinct_id {
            Some(d) => Some(d),
            None => match stored_distinct_id {
                Some(d) => Some(d),
                None => seed_distinct,
            },
        };
        let device_id = match device_id {
            Some(d) => d,
            None => match stored_device_id {
                Some(d) => d,
                None => match seed_device {
                    Some(d) => d,
                    None => DeviceId::new(),
                },
            },
        };
        proof {
            use_type_invariant(&facts);
            use_type_invariant(&groups);
            lemma_first_nonempty(
                seq![opt_anon(anonymous_distinct_id), stored_anon(stored), opt_text(correlation.anon_distinct_id)],
            );
        }
        let feature_facts = StringMap::new();
        Collator {
            session_id,
            anon_distinct_id: anon,
            distinct_id,
            device_id,
            facts,
            feature_facts,
            groups,
        }
    }

    /// The id events report: the distinct id if set, else the anonymous id.
    fn distinct_id(&self) -> (r: String)
        ensures
            r@ == reported_id(self@),
    {
        match &self.distinct_id {
            Some(d) => d.to_string(),
            None => self.anon_distinct_id.to_string(),
        }
    }

    /// The record to persist for the current state.
    fn stored(&self) -> (r: StoredProperties)
        ensures
            r@ == stored_of(self@),
    {
        StoredProperties {
            anonymous_distinct_id: self.anon_distinct_id.duplicate(),
            distinct_id: match &self.distinct_id {
                Some(d) => Some(d.duplicate()),
                None => None,
            },
            device_id: self.device_id.duplicate(),
            groups: self.groups.duplicate(),
            checkin: None,
        }
    }

    /// The event named `event` composed from the current state.
    fn msg_to_event(&self, stamp: &Stamp, event: String, properties: Option<StringMap>) -> (r: Event)
        ensures
            r@ == event_of(self@, stamp@, event@, crate::event::opt_pairs(properties)),
    {
        Event {
            distinct_id: self.distinct_id(),
            name: event,
            properties: EventProperties {
                anon_distinct_id: self.anon_distinct_id.to_string(),
                session_id: self.session_id.clone(),
                device_id: self.device_id.to_string(),
                snapshot: stamp.snapshot.duplicate(),
                facts: self.facts.duplicate(),
                feature_facts: self.feature_facts.duplicate(),
                lib: String::from_str(LIB_NAME),
                lib_version: String::from_str(LIB_VERSION),
                properties,
                groups: self.groups.duplicate(),
            },
            timestamp: stamp.timestamp.clone(),
            uuid: stamp.event_uuid.clone(),
        }
    }

    fn handle_message_get_session_properties(&self, stamp: &Stamp) -> (r: StringMap)
        ensures
            r@ == session_properties_of(self@, stamp@),
    {
        let mut props = StringMap::new();
        props.insert(String::from_str("person_properties"), object_of(&stamp.snapshot));
        let id = self.distinct_id();
        props.insert(String::from_str("distinct_id"), encode_string(id.as_str()));
        props.insert(
            String::from_str("$anon_distinct_id"),
            encode_string(self.anon_distinct_id.as_str()),
        );
        props.insert(String::from_str("groups"), string_object_of(&self.groups));
        props
    }

    fn handle_message_fact(&mut self, key: String, value: String)
        ensures
            final(self)@ == (CollatorView { facts: bind(old(self)@.facts, key@, value@), ..old(self)@ }),
    {
        self.facts.insert(key, value);
    }

    fn handle_message_update_feature_facts(&mut self, facts: StringMap)
        ensures
            final(self)@ == (CollatorView { feature_facts: facts@, ..old(self)@ }),
    {
        self.feature_facts = facts;
    }

    fn handle_message_identify(&mut self, new: DistinctId, stamp: &Stamp) -> (r: CollatorOutput)
        ensures
            (final(self)@, r@) == step(old(self)@, SignalView::Identify(new@), stamp@),
    {
        let had_distinct_id = self.distinct_id.is_some();
        self.distinct_id = Some(new);
        if had_distinct_id {
            self.anon_distinct_id = stamp.fresh_anon_id.duplicate();
        }
        let persist = self.stored();
        let event = self.msg_to_event(stamp, String::from_str("$identify"), None);
        CollatorOutput { forward: Some(CollatedSignal::Event(event)), persist: Some(persist), reply: None }
    }

    fn handle_message_add_group(&mut self, group_name: String, group_member_id: String) -> (r:
        CollatorOutput)
        ensures
            final(self)@ == (CollatorView {
                groups: bind(old(self)@.groups, group_name@, group_member_id@),
                ..old(self)@
            }),
            r@ == (OutputView { forward: None, persist: Some(stored_of(final(self)@)), reply: None }),
    {
        self.groups.insert(group_name, group_member_id);
        CollatorOutput { forward: None, persist: Some(self.stored()), reply: None }
    }

    fn handle_message_alias(&self, alias: String, stamp: &Stamp) -> (r: CollatorOutput)
        ensures
            r@ == step(self@, SignalView::Alias(alias@), stamp@).1,
    {
        let mut properties = StringMap::new();
        properties.insert(String::from_str("alias"), encode_string(alias.as_str()));
        let event = self.msg_to_event(stamp, String::from_str("$create_alias"), Some(properties));
        CollatorOutput { forward: Some(CollatedSignal::Event(event)), persist: None, reply: None }
    }

    fn handle_message_reset(&mut self, stamp: &Stamp) -> (r: CollatorOutput)
        ensures
            (final(self)@, r@) == step(old(self)@, SignalView::Reset, stamp@),
    {
        self.distinct_id = None;
        self.anon_distinct_id = stamp.fresh_anon_id.duplicate();
        CollatorOutput { forward: None, persist: Some(self.stored()), reply: None }
    }

    /// Handle one signal: the state moves and the output is exactly what `step` says.
    pub fn handle(&mut self, signal: RawSignal, stamp: &Stamp) -> (r: CollatorOutput)
        requires
            old(self).wf(),
            stamp_wf(stamp@),
        ensures
            final(self).wf(),
            (final(self)@, r@) == step(old(self)@, signal@, stamp@),
    {
        let ghost sig = signal@;
        let r = match signal {
            RawSignal::GetSessionProperties => {
                let props = self.handle_message_get_session_properties(stamp);
                CollatorOutput { forward: None, persist: None, reply: Some(props) }
            },
            RawSignal::Fact { key, value } => {
                self.handle_message_fact(key, value);
                CollatorOutput { forward: None, persist: None, reply: None }
            },
            RawSignal::UpdateFeatureFacts(feature_facts) => {
                proof {
                    use_type_invariant(&feature_facts);
                }
                self.handle_message_update_feature_facts(feature_facts);
                CollatorOutput { forward: None, persist: None, reply: None }
            },
            RawSignal::Event { event_name, properties } => {
                let event = self.msg_to_event(stamp, event_name, properties);
                CollatorOutput { forward: Some(CollatedSignal::Event(event)), persist: None, reply: None }
            },
            RawSignal::Identify(new) => self.handle_message_identify(new, stamp),
            RawSignal::AddGroup { group_name, group_member_id } => self.handle_message_add_group(
                group_name,
                group_member_id,
            ),
            RawSignal::Alias(alias) => self.handle_message_alias(alias, stamp),
            RawSignal::Reset => self.handle_message_reset(stamp),
            RawSignal::FlushNow => CollatorOutput {
                forward: Some(CollatedSignal::FlushNow),
                persist: None,
                reply: None,
            },
        };
        proof {
            use_type_invariant(&self.facts);
            use_type_invariant(&self.feature_facts);
            use_type_invariant(&self.groups);
        }
        r
    }

    /// What the collator sends once its incoming channel has closed: a final flush.
    pub fn finish(&self) -> (r: CollatedSignal)
        ensures
            r@ == CollatedView::FlushNow,
    {
        CollatedSignal::FlushNow
    }
}

/// The final state and the outputs of handling `sigs` in turn from `c`, the
/// signal at position `i` with stamp `sts[i]`.
pub open spec fn run(c: CollatorView, sigs: Seq<SignalView>, sts: Seq<StampView>) -> (CollatorView, Seq<
    OutputView,
>)
    decreases sigs.len(),
{
    if sigs.len() == 0 {
        (c, Seq::empty())
    } else {
        let before = run(c, sigs.drop_last(), sts);
        let after = step(before.0, sigs.last(), sts[sigs.len() - 1]);
        (after.0, before.1.push(after.1))
    }
}

/// The event an output forwards, if any.
pub open spec fn emitted(o: OutputView) -> Option<EventView> {
    match o.forward {
        Some(CollatedView::Event(e)) => Some(e),
        _ => None,
    }
}

/// Neither an identify nor a reset.
pub open spec fn keeps_identity(sig: SignalView) -> bool {
    !(sig is Identify) && !(sig is Reset)
}

proof fn lemma_run_keeps_identity(c: CollatorView, sigs: Seq<SignalView>, sts: Seq<StampView>)
    requires
        forall|i: int| 0 <= i < sigs.len() ==> keeps_identity(#[trigger] sigs[i]),
    ensures
        run(c, sigs, sts).0.anon == c.anon,
        run(c, sigs, sts).0.distinct == c.distinct,
        run(c, sigs, sts).0.device == c.device,
        run(c, sigs, sts).1.len() == sigs.len(),
        forall|i: int|
            0 <= i < sigs.len() && (#[trigger] emitted(run(c, sigs, sts).1[i])) is Some ==> {
                let e = emitted(run(c, sigs, sts).1[i])->0;
                &&& e.distinct_id == reported_id(c)
                &&& e.anon_distinct_id == c.anon
                &&& e.device_id == c.device
            },
    decreases sigs.len(),
{
    if sigs.len() > 0 {
        let d = sigs.drop_last();
        assert forall|i: int| 0 <= i < d.len() implies keeps_identity(#[trigger] d[i]) by {
            assert(d[i] == sigs[i]);
        }
        lemma_run_keeps_identity(c, d, sts);
        assert(keeps_identity(sigs[sigs.len() - 1]));
        let before = run(c, d, sts);
        assert forall|i: int|
            0 <= i < sigs.len() && (#[trigger] emitted(run(c, sigs, sts).1[i])) is Some implies {
                let e = emitted(run(c, sigs, sts).1[i])->0;
                &&& e.distinct_id == reported_id(c)
                &&& e.anon_distinct_id == c.anon
                &&& e.device_id == c.device
            } by {
            if i < d.len() {
                assert(run(c, sigs, sts).1[i] == before.1[i]);
            }
        }
    }
}

/// Every event the collator emits carries a non-empty anonymous id, whatever
/// the signals, from any state whose anonymous id is not empty and with
/// stamps whose fresh ids are not empty.
pub proof fn law_events_carry_anon_id(c: CollatorView, sigs: Seq<SignalView>, sts: Seq<StampView>)
    requires
        c.anon.len() > 0,
        sigs.len() == sts.len(),
        forall|i: int| 0 <= i < sts.len() ==> stamp_wf(#[trigger] sts[i]),
    ensures
        run(c, sigs, sts).0.anon.len() > 0,
        run(c, sigs, sts).1.len() == sigs.len(),
        forall|i: int|
            0 <= i < sigs.len() && (#[trigger] emitted(run(c, sigs, sts).1[i])) is Some
                ==> emitted(run(c, sigs, sts).1[i])->0.anon_distinct_id.len() > 0,
    decreases sigs.len(),
{
    if sigs.len() > 0 {
        let d = sigs.drop_last();
        let t = sts.drop_last();
        assert forall|i: int| 0 <= i < t.len() implies stamp_wf(#[trigger] t[i]) by {
            assert(t[i] == sts[i]);
        }
        lemma_run_prefix_stamps(c, d, sts);
        law_events_carry_anon_id(c, d, t);
        assert(stamp_wf(sts[sigs.len() - 1]));
        let before = run(c, d, sts);
        assert forall|i: int|
            0 <= i < sigs.len() && (#[trigger] emitted(run(c, sigs, sts).1[i])) is Some
                implies emitted(run(c, sigs, sts).1[i])->0.anon_distinct_id.len() > 0 by {
            if i < d.len() {
                assert(run(c, sigs, sts).1[i] == before.1[i]);
            }
        }
    }
}

/// A run reads only the stamps of its own signals.
proof fn lemma_run_prefix_stamps(c: CollatorView, sigs: Seq<SignalView>, sts: Seq<StampView>)
    requires
        sigs.len() < sts.len(),
    ensures
        run(c, sigs, sts) == run(c, sigs, sts.drop_last()),
    decreases sigs.len(),
{
    if sigs.len() > 0 {
        lemma_run_prefix_stamps(c, sigs.drop_last(), sts);
        assert(sts[sigs.len() - 1] == sts.drop_last()[sigs.len() - 1]);
    }
}

/// After `identify(d)` from a state that already had a distinct id, and with
/// no identify or reset since, every event reports `d` and carries the
/// anonymous id generated at the identify; so, when that fresh id was never
/// seen before, no event after the identify carries an anonymous id seen
/// before it.
pub proof fn law_identify_rotates_anon_id(
    c: CollatorView,
    d: Seq<char>,
    st: StampView,
    sigs: Seq<SignalView>,
    sts: Seq<StampView>,
    seen: Set<Seq<char>>,
)
    requires
        c.distinct is Some,
        forall|i: int| 0 <= i < sigs.len() ==> keeps_identity(#[trigger] sigs[i]),
        !seen.contains(st.fresh_anon),
    ensures
        ({
            let first = step(c, SignalView::Identify(d), st);
            let e = emitted(first.1)->0;
            &&& emitted(first.1) is Some
            &&& e.distinct_id == d
            &&& e.anon_distinct_id == st.fresh_anon
            &&& !seen.contains(e.anon_distinct_id)
        }),
        forall|i: int|
            0 <= i < sigs.len() && (#[trigger] emitted(
                run(step(c, SignalView::Identify(d), st).0, sigs, sts).1[i],
            )) is Some ==> {
                let e = emitted(run(step(c, SignalView::Identify(d), st).0, sigs, sts).1[i])->0;
                &&& e.distinct_id == d
                &&& e.anon_distinct_id == st.fresh_anon
                &&& !seen.contains(e.anon_distinct_id)
            },
{
    let next = step(c, SignalView::Identify(d), st).0;
    lemma_run_keeps_identity(next, sigs, sts);
}

/// After a reset, and with no identify or reset since, every event reports
/// the new anonymous id as its distinct id, and the device id is the one
/// from before the reset.
pub proof fn law_reset_reports_new_anon_id(
    c: CollatorView,
    st: StampView,
    sigs: Seq<SignalView>,
    sts: Seq<StampView>,
)
    requires
        forall|i: int| 0 <= i < sigs.len() ==> keeps_identity(#[trigger] sigs[i]),
    ensures
        step(c, SignalView::Reset, st).0.device == c.device,
        step(c, SignalView::Reset, st).0.anon == st.fresh_anon,
        forall|i: int|
            0 <= i < sigs.len() && (#[trigger] emitted(
                run(step(c, SignalView::Reset, st).0, sigs, sts).1[i],
            )) is Some ==> {
                let e = emitted(run(step(c, SignalView::Reset, st).0, sigs, sts).1[i])->0;
                &&& e.distinct_id == st.fresh_anon
                &&& e.anon_distinct_id == st.fresh_anon
                &&& e.device_id == c.device
            },
{
    let next = step(c, SignalView::Reset, st).0;
    lemma_run_keeps_identity(next, sigs, sts);
}

proof fn lemma_fixed_unique(e: EventView)
    ensures
        keys_unique(crate::event::fixed_properties(e)),
{
    let s0 = Seq::<(Seq<char>, Seq<char>)>::empty();
    crate::string_map::lemma_bind(s0, "$anon_distinct_id"@, json_string_text(e.anon_distinct_id));
    let s1 = bind(s0, "$anon_distinct_id"@, json_string_text(e.anon_distinct_id));
    crate::string_map::lemma_bind(s1, "$device_id"@, json_string_text(e.device_id));
    let s2 = bind(s1, "$device_id"@, json_string_text(e.device_id));
    crate::string_map::lemma_bind(s2, "$lib"@, json_string_text(e.lib));
    let s3 = bind(s2, "$lib"@, json_string_text(e.lib));
    crate::string_map::lemma_bind(s3, "$lib_version"@, json_string_text(e.lib_version));
    let s4 = bind(s3, "$lib_version"@, json_string_text(e.lib_version));
    crate::string_map::lemma_bind(s4, "$session_id"@, json_string_text(e.session_id));
    let s5 = bind(s4, "$session_id"@, json_string_text(e.session_id));
    crate::string_map::lemma_bind(s5, "$groups"@, string_object_text(e.groups));
}

/// A fact set just before an event is among that event's flattened
/// properties, unless the feature facts or the event's own properties bind
/// the same key (those are laid over the facts).
pub proof fn law_fact_reaches_next_event(
    c: CollatorView,
    k: Seq<char>,
    v: Seq<char>,
    st1: StampView,
    name: Seq<char>,
    props: Option<Pairs>,
    st2: StampView,
)
    requires
        state_wf(c),
        crate::string_map::lookup(c.feature_facts, k) is None,
        props is Some ==> crate::string_map::lookup(props->0, k) is None,
    ensures
        ({
            let after_fact = step(c, SignalView::Fact(k, v), st1).0;
            let out = step(after_fact, SignalView::Event(name, props), st2).1;
            &&& emitted(out) is Some
            &&& crate::string_map::lookup(crate::event::flattened(emitted(out)->0), k) == Some(v)
        }),
{
    let after_fact = step(c, SignalView::Fact(k, v), st1).0;
    let e = event_of(after_fact, st2, name, props);
    crate::string_map::lemma_bind(c.facts, k, v);
    let fixed = crate::event::fixed_properties(e);
    lemma_fixed_unique(e);
    crate::string_map::lemma_bind_all_unique(fixed, e.snapshot);
    let a = bind_all(fixed, e.snapshot);
    crate::string_map::lemma_bind_all_unique(a, e.facts);
    crate::string_map::lemma_bind_all_lookup(a, e.facts, k);
    let b = bind_all(a, e.facts);
    crate::string_map::lemma_bind_all_unique(b, e.feature_facts);
    crate::string_map::lemma_bind_all_lookup(b, e.feature_facts, k);
    let f = bind_all(b, e.feature_facts);
    let extra = match props {
        Some(p) => p,
        None => Seq::empty(),
    };
    crate::string_map::lemma_bind_all_lookup(f, extra, k);
}

} // verus!
