//! The configuration proxy's cache of the latest check-in, and its refresh
//! protocol: a failed check-in never touches the cache, a reply is always
//! produced, and subscribers are notified only of a real change.
use crate::checkin::{feature_facts_of, flag_lookup, Checkin, Feature};
use crate::string_map::StringMap;
use vstd::prelude::*;

verus! {

/// Whether a check-in document has been obtained.
#[derive(Debug, Copy, Clone, Eq, PartialEq, Structural)]
pub enum CheckinStatus {
    CheckedIn,
    NotYet,
}

/// The reply to a check-in request, and whether subscribers are to be told
/// of a change.
pub struct RefreshOutcome {
    pub checkin: Option<Checkin>,
    pub feature_facts: StringMap,
    pub notify: bool,
}

/// The cached check-in document.
pub struct ConfigurationProxy {
    checkin: Option<Checkin>,
}

pub open spec fn checkin_view(c: Option<Checkin>) -> Option<<Checkin as View>::V> {
    match c {
        Some(c) => Some(c@),
        None => None,
    }
}

/// The feature facts of a cache: those of its document, or none at all.
pub open spec fn facts_of_cache(c: Option<<Checkin as View>::V>) -> Seq<(Seq<char>, Seq<char>)> {
    match c {
        Some(c) => feature_facts_of(c.1),
        None => Seq::empty(),
    }
}

/// Whether a fresh document differs from the cache (an empty cache differs
/// from any document).
pub open spec fn changes(cache: Option<<Checkin as View>::V>, fresh: Option<<Checkin as View>::V>) -> bool {
    fresh is Some && cache != fresh
}

impl ConfigurationProxy {
    pub closed spec fn cached(&self) -> Option<<Checkin as View>::V> {
        checkin_view(self.checkin)
    }

    pub closed spec fn wf(&self) -> bool {
        match self.checkin {
            Some(c) => c.wf(),
            None => true,
        }
    }

    /// A proxy that has not checked in yet.
    pub fn new() -> (r: ConfigurationProxy)
        ensures
            r.wf(),
            r.cached() is None,
    {
        ConfigurationProxy { checkin: None }
    }

    /// Seed the cache, as from a stored document.
    pub fn bootstrap_checkin(&mut self, checkin: Option<Checkin>)
        requires
            checkin matches Some(c) ==> c.wf(),
        ensures
            final(self).wf(),
            final(self).cached() == checkin_view(checkin),
    {
        self.checkin = checkin;
    }

    /// Checked in exactly when the cache holds a document.
    pub fn handle_message_query_if_checked_in(&self) -> (r: CheckinStatus)
        ensures
            (r == CheckinStatus::CheckedIn) == (self.cached() is Some),
    {
        match &self.checkin {
            Some(_) => CheckinStatus::CheckedIn,
            None => CheckinStatus::NotYet,
        }
    }

    /// The cached record of the flag `name`; none before the first check-in.
    pub fn handle_message_get_feature(&self, name: &String) -> (r: Option<Feature>)
        requires
            self.wf(),
        ensures
            match self.cached() {
                None => r is None,
                Some(c) => match r {
                    Some(f) => flag_lookup(c.1, name@) == Some(f@),
                    None => flag_lookup(c.1, name@) is None,
                },
            },
    {
        match &self.checkin {
            Some(c) => c.get_feature(name),
            None => None,
        }
    }

    /// Take in the outcome of a check-in: `fresh` is the document the
    /// transport returned, none when it failed. A document that differs from
    /// the cache replaces it and is to be announced; otherwise the cache stays
    /// as it was. The reply carries the cache as it now is and its feature
    /// facts, whatever the transport did.
    pub fn handle_message_check_in_now(&mut self, fresh: Option<Checkin>) -> (r: RefreshOutcome)
        requires
            old(self).wf(),
            fresh matches Some(c) ==> c.wf(),
        ensures
            final(self).wf(),
            changes(old(self).cached(), checkin_view(fresh)) ==> final(self).cached() == checkin_view(
                fresh,
            ),
            !changes(old(self).cached(), checkin_view(fresh)) ==> final(self).cached() == old(
                self,
            ).cached(),
            r.notify == changes(old(self).cached(), checkin_view(fresh)),
            checkin_view(r.checkin) == final(self).cached(),
            r.feature_facts@ == facts_of_cache(final(self).cached()),
    {
        let changed = match (&fresh, &self.checkin) {
            (Some(f), Some(c)) => !f.same_as(c),
            (Some(_), None) => true,
            (None, _) => false,
        };
        if changed {
            self.checkin = fresh;
        }
        let (checkin, feature_facts) = match &self.checkin {
            Some(c) => (Some(c.duplicate()), c.as_feature_facts()),
            None => (None, StringMap::new()),
        };
        RefreshOutcome { checkin, feature_facts, notify: changed }
    }
}

} // verus!
