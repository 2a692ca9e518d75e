//! Outgoing events and their wire form.
use crate::json::{encode_string, json_string_text, object_of, object_text, string_object_of, string_object_text};
use crate::string_map::{bind, bind_all, StringMap};
use vstd::prelude::*;

verus! {

/// Key/value pairs as plain values.
pub type Pairs = Seq<(Seq<char>, Seq<char>)>;

/// The name this library reports itself by in every event.
pub const LIB_NAME: &'static str = "detsys-ids-client";

/// The version this library reports in every event.
pub const LIB_VERSION: &'static str = "0.1.0";

/// The properties every event carries. Maps other than `groups` hold JSON text.
pub struct EventProperties {
    pub anon_distinct_id: String,
    pub device_id: String,
    pub lib: String,
    pub lib_version: String,
    pub session_id: String,
    pub groups: StringMap,
    pub snapshot: StringMap,
    pub facts: StringMap,
    pub feature_facts: StringMap,
    pub properties: Option<StringMap>,
}

/// One event, as composed when the collator processed it.
pub struct Event {
    pub name: String,
    pub distinct_id: String,
    pub uuid: String,
    pub timestamp: String,
    pub properties: EventProperties,
}

/// An event as plain values.
pub struct EventView {
    pub name: Seq<char>,
    pub distinct_id: Seq<char>,
    pub uuid: Seq<char>,
    pub timestamp: Seq<char>,
    pub anon_distinct_id: Seq<char>,
    pub device_id: Seq<char>,
    pub lib: Seq<char>,
    pub lib_version: Seq<char>,
    pub session_id: Seq<char>,
    pub groups: Pairs,
    pub snapshot: Pairs,
    pub facts: Pairs,
    pub feature_facts: Pairs,
    pub properties: Option<Pairs>,
}

pub open spec fn opt_pairs(o: Option<StringMap>) -> Option<Pairs> {
    match o {
        Some(m) => Some(m@),
        None => None,
    }
}

impl View for Event {
    type V = EventView;

    open spec fn view(&self) -> EventView {
        EventView {
            name: self.name@,
            distinct_id: self.distinct_id@,
            uuid: self.uuid@,
            timestamp: self.timestamp@,
            anon_distinct_id: self.properties.anon_distinct_id@,
            device_id: self.properties.device_id@,
            lib: self.properties.lib@,
            lib_version: self.properties.lib_version@,
            session_id: self.properties.session_id@,
            groups: self.properties.groups@,
            snapshot: self.properties.snapshot@,
            facts: self.properties.facts@,
            feature_facts: self.properties.feature_facts@,
            properties: opt_pairs(self.properties.properties),
        }
    }
}

/// The fixed properties of an event, in wire order.
pub open spec fn fixed_properties(e: EventView) -> Pairs {
    bind(
        bind(
            bind(
                bind(
                    bind(
                        bind(Seq::empty(), "$anon_distinct_id"@, json_string_text(e.anon_distinct_id)),
                        "$device_id"@,
                        json_string_text(e.device_id),
                    ),
                    "$lib"@,
                    json_string_text(e.lib),
                ),
                "$lib_version"@,
                json_string_text(e.lib_version),
            ),
            "$session_id"@,
            json_string_text(e.session_id),
        ),
        "$groups"@,
        string_object_text(e.groups),
    )
}

/// The properties of an event as a receiver reads them: the fixed ones, then
/// the snapshot, the facts, the feature facts and the event's own properties
/// flattened in, a later one winning on a shared key.
pub open spec fn flattened(e: EventView) -> Pairs {
    bind_all(
        bind_all(bind_all(bind_all(fixed_properties(e), e.snapshot), e.facts), e.feature_facts),
        match e.properties {
            Some(p) => p,
            None => Seq::empty(),
        },
    )
}

/// The JSON text of an event.
pub open spec fn event_text(e: EventView) -> Seq<char> {
    object_text(
        bind(
            bind(
                bind(
                    bind(bind(Seq::empty(), "name"@, json_string_text(e.name)), "distinct_id"@, json_string_text(e.distinct_id)),
                    "uuid"@,
                    json_string_text(e.uuid),
                ),
                "timestamp"@,
                json_string_text(e.timestamp),
            ),
            "properties"@,
            object_text(flattened(e)),
        ),
    )
}

/// Bind `k` to the JSON string of `v`.
fn insert_quoted(map: &mut StringMap, k: &str, v: &str)
    ensures
        final(map)@ == bind(old(map)@, k@, json_string_text(v@)),
{
    map.insert(String::from_str(k), encode_string(v));
}

impl Event {
    /// The properties as a receiver reads them.
    pub fn flattened_properties(&self) -> (r: StringMap)
        ensures
            r@ == flattened(self@),
    {
        let p = &self.properties;
        let mut out = StringMap::new();
        insert_quoted(&mut out, "$anon_distinct_id", p.anon_distinct_id.as_str());
        insert_quoted(&mut out, "$device_id", p.device_id.as_str());
        insert_quoted(&mut out, "$lib", p.lib.as_str());
        insert_quoted(&mut out, "$lib_version", p.lib_version.as_str());
        insert_quoted(&mut out, "$session_id", p.session_id.as_str());
        out.insert(String::from_str("$groups"), string_object_of(&p.groups));
        out.extend_from(&p.snapshot);
        out.extend_from(&p.facts);
        out.extend_from(&p.feature_facts);
        match &p.properties {
            Some(extra) => out.extend_from(extra),
            None => {
                assert(bind_all(out@, Seq::empty()) == out@);
            },
        }
        out
    }

    /// The event's JSON text.
    pub fn to_json(&self) -> (r: String)
        ensures
            r@ == event_text(self@),
    {
        let mut out = StringMap::new();
        insert_quoted(&mut out, "name", self.name.as_str());
        insert_quoted(&mut out, "distinct_id", self.distinct_id.as_str());
        insert_quoted(&mut out, "uuid", self.uuid.as_str());
        insert_quoted(&mut out, "timestamp", self.timestamp.as_str());
        let props = self.flattened_properties();
        out.insert(String::from_str("properties"), object_of(&props));
        object_of(&out)
    }
}

} // verus!
