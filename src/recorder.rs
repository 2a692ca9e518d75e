//! The decisions the recorder façade takes around its requests: what a flag
//! lookup records and returns, where a pointer flag leads, whether a wait for
//! the first check-in is over, and what a configuration refresh forwards.
use crate::checkin::{Checkin, Feature};
use crate::collator::RawSignal;
use crate::configuration_proxy::CheckinStatus;
use crate::event::Pairs;
use crate::json::{decode_string, encode_string, json_string_decoded, json_string_text, object_of, object_text};
use crate::string_map::{bind, StringMap};
use vstd::prelude::*;

verus! {

/// Person properties sent with an identification: those to set, and those
/// to set only once. Values are JSON text.
pub struct IdentifyProperties {
    pub set: StringMap,
    pub set_once: StringMap,
}

impl IdentifyProperties {
    /// Nothing to set.
    pub fn new() -> (r: IdentifyProperties)
        ensures
            r.set@.len() == 0,
            r.set_once@.len() == 0,
    {
        IdentifyProperties { set: StringMap::new(), set_once: StringMap::new() }
    }

    /// The properties as a map: `$set` and `$set_once`, each an object.
    pub fn as_map(&self) -> (r: StringMap)
        ensures
            r@ == bind(
                bind(Seq::empty(), "$set"@, object_text(self.set@)),
                "$set_once"@,
                object_text(self.set_once@),
            ),
    {
        let mut map = StringMap::new();
        map.insert(String::from_str("$set"), object_of(&self.set));
        map.insert(String::from_str("$set_once"), object_of(&self.set_once));
        map
    }
}

impl Default for IdentifyProperties {
    fn default() -> (r: IdentifyProperties)
        ensures
            r.set@.len() == 0,
            r.set_once@.len() == 0,
    {
        IdentifyProperties::new()
    }
}

/// The properties of the event that records a flag lookup.
pub open spec fn flag_called_properties(key: Seq<char>, variant: Seq<char>) -> Pairs {
    bind(
        bind(Seq::empty(), "$feature_flag"@, json_string_text(key)),
        "$feature_flag_response"@,
        variant,
    )
}

/// What a flag lookup does once the proxy has answered.
pub struct FlagLookup {
    /// The event to record, if any.
    pub record: Option<RawSignal>,
    /// The feature to hand back, if any.
    pub feature: Option<Feature>,
}

/// The outcome of a lookup of `key` given the proxy's reply: when a feature
/// came back, exactly one `$feature_flag_called` event records the key and
/// the variant, and the feature is handed back; otherwise nothing is
/// recorded and nothing is returned.
pub fn resolve_feature_lookup(key: String, reply: Option<Feature>) -> (r: FlagLookup)
    ensures
        reply is None ==> r.record is None && r.feature is None,
        reply matches Some(f) ==> {
            &&& r.feature matches Some(g) && g@ == f@
            &&& r.record matches Some(RawSignal::Event { event_name, properties })
            &&& event_name@ == "$feature_flag_called"@
            &&& properties matches Some(p) && p@ == flag_called_properties(key@, f.variant@)
        },
{
    match reply {
        Some(feature) => {
            let mut props = StringMap::new();
            props.insert(String::from_str("$feature_flag"), encode_string(key.as_str()));
            props.insert(String::from_str("$feature_flag_response"), feature.variant.clone());
            FlagLookup {
                record: Some(
                    RawSignal::Event {
                        event_name: String::from_str("$feature_flag_called"),
                        properties: Some(props),
                    },
                ),
                feature: Some(feature),
            }
        },
        None => FlagLookup { record: None, feature: None },
    }
}

/// The flag that a pointer flag names: its payload read as a JSON string.
/// None when it has no payload or the payload is not a string.
pub fn pointer_target(feature: &Feature) -> (r: Option<String>)
    ensures
        feature.payload is None ==> r is None,
        feature.payload matches Some(p) ==> match r {
            Some(t) => json_string_decoded(p@) == Some(t@),
            None => json_string_decoded(p@) is None,
        },
{
    match &feature.payload {
        Some(p) => decode_string(p.as_str()),
        None => None,
    }
}

/// How a wait for the first check-in goes on after the status query.
#[derive(Debug, Copy, Clone, Eq, PartialEq, Structural)]
pub enum WaitStep {
    /// Already checked in: the wait is over.
    Done,
    /// Wait for the next change notification.
    AwaitChange,
    /// Not checked in, and no subscription could be had.
    SubscribeFailed,
}

/// The next step of a wait, from the status and whether the subscription
/// (taken before the query) was granted.
pub fn wait_step(status: CheckinStatus, subscribed: bool) -> (r: WaitStep)
    ensures
        status == CheckinStatus::CheckedIn ==> r == WaitStep::Done,
        status == CheckinStatus::NotYet && subscribed ==> r == WaitStep::AwaitChange,
        status == CheckinStatus::NotYet && !subscribed ==> r == WaitStep::SubscribeFailed,
{
    match status {
        CheckinStatus::CheckedIn => WaitStep::Done,
        CheckinStatus::NotYet => if subscribed {
            WaitStep::AwaitChange
        } else {
            WaitStep::SubscribeFailed
        },
    }
}

/// The session properties a refresh sends: those the collator gave, or
/// none at all when it did not answer.
pub fn refresh_session_properties(reply: Option<StringMap>) -> (r: StringMap)
    ensures
        reply matches Some(m) ==> r@ == m@,
        reply is None ==> r@.len() == 0,
{
    match reply {
        Some(m) => m,
        None => StringMap::new(),
    }
}

/// What a refresh forwards to the collator once the proxy replied: the new
/// feature facts; nothing when the reply never came.
pub fn forward_refresh(reply: Option<(Option<Checkin>, StringMap)>) -> (r: Option<RawSignal>)
    ensures
        reply is None ==> r is None,
        reply matches Some((_, ff)) ==> (r matches Some(RawSignal::UpdateFeatureFacts(g)) && g@ == ff@),
{
    match reply {
        Some((_, feature_facts)) => Some(RawSignal::UpdateFeatureFacts(feature_facts)),
        None => None,
    }
}

} // verus!
