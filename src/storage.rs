//! The persisted identity record, an in-memory store for it, and the location
//! of the JSON file store.
use crate::checkin::Checkin;
use crate::identity::{AnonymousDistinctId, DeviceId, DistinctId};
use crate::string_map::StringMap;
use vstd::prelude::*;

verus! {

/// What is kept of a client's identity between runs.
pub struct StoredProperties {
    pub anonymous_distinct_id: AnonymousDistinctId,
    pub distinct_id: Option<DistinctId>,
    pub device_id: DeviceId,
    pub groups: StringMap,
    pub checkin: Option<Checkin>,
}

/// A stored record as plain values.
pub struct StoredView {
    pub anon: Seq<char>,
    pub distinct: Option<Seq<char>>,
    pub device: Seq<char>,
    pub groups: Seq<(Seq<char>, Seq<char>)>,
    pub checkin: Option<<Checkin as View>::V>,
}

impl View for StoredProperties {
    type V = StoredView;

    open spec fn view(&self) -> StoredView {
        StoredView {
            anon: self.anonymous_distinct_id@,
            distinct: match self.distinct_id {
                Some(d) => Some(d@),
                None => None,
            },
            device: self.device_id@,
            groups: self.groups@,
            checkin: match self.checkin {
                Some(c) => Some(c@),
                None => None,
            },
        }
    }
}

impl StoredProperties {
    pub fn duplicate(&self) -> (r: StoredProperties)
        ensures
            r@ == self@,
    {
        StoredProperties {
            anonymous_distinct_id: self.anonymous_distinct_id.duplicate(),
            distinct_id: match &self.distinct_id {
                Some(d) => Some(d.duplicate()),
                None => None,
            },
            device_id: self.device_id.duplicate(),
            groups: self.groups.duplicate(),
            checkin: match &self.checkin {
                Some(c) => Some(c.duplicate()),
                None => None,
            },
        }
    }
}

/// A store that keeps the record in memory; it never fails.
pub struct Generic {
    state: Option<StoredProperties>,
}

impl Generic {
    /// What the store holds.
    pub closed spec fn held(&self) -> Option<StoredView> {
        match self.state {
            Some(p) => Some(p@),
            None => None,
        }
    }

    /// An empty store.
    pub fn new() -> (r: Generic)
        ensures
            r.held() is None,
    {
        Generic { state: None }
    }

    /// The last record stored, if any.
    pub fn load(&self) -> (r: Option<StoredProperties>)
        ensures
            match r {
                Some(p) => self.held() == Some(p@),
                None => self.held() is None,
            },
    {
        match &self.state {
            Some(p) => Some(p.duplicate()),
            None => None,
        }
    }

    /// Keep `properties`, replacing what was held.
    pub fn store(&mut self, properties: StoredProperties)
        ensures
            final(self).held() == Some(properties@),
    {
        self.state = Some(properties);
    }
}

impl Default for Generic {
    fn default() -> (r: Generic)
        ensures
            r.held() is None,
    {
        Generic::new()
    }
}

/// The directory part of a path as `std::path::Path::parent` computes it.
pub uninterp spec fn path_parent_of(path: Seq<char>) -> Option<Seq<char>>;

/// Relies on std::path::Path::parent: the path without its final component;
/// none for an empty path or one that ends in a root.
#[verifier::external_body]
fn parent_of(path: &str) -> (r: Option<String>)
    ensures
        match r {
            Some(p) => path_parent_of(path@) == Some(p@),
            None => path_parent_of(path@) is None,
        },
        path@.len() == 0 ==> r is None,
{
    std::path::Path::new(path).parent().map(|p| p.to_string_lossy().into_owned())
}

/// The JSON file that holds the record, and the directory that holds it
/// (where a new file is written before it replaces the old).
pub struct JsonFile {
    pub location: String,
    pub directory: String,
}

impl JsonFile {
    /// The store at `location`; none when the location has no parent directory.
    pub fn new(location: String) -> (r: Option<JsonFile>)
        ensures
            match r {
                Some(f) => f.location@ == location@ && path_parent_of(location@) == Some(
                    f.directory@,
                ),
                None => path_parent_of(location@) is None,
            },
            location@.len() == 0 ==> r is None,
    {
        match parent_of(location.as_str()) {
            Some(directory) => Some(JsonFile { location, directory }),
            None => None,
        }
    }
}

} // verus!
