//! The three identifiers a client reports: the application's user id, the
//! anonymous id that stands in until (and between) identifications, and the
//! per-installation device id.
use vstd::prelude::*;

verus! {

/// Relies on uuid::Uuid::now_v7 and its `Display`: a fresh time-ordered UUID in
/// hyphenated form, which is always 36 characters long.
#[verifier::external_body]
pub(crate) fn time_ordered_uuid() -> (r: String)
    ensures
        r@.len() == 36,
{
    uuid::Uuid::now_v7().to_string()
}

/// Relies on uuid::Uuid::new_v4 and its `Display`: a fresh random UUID in
/// hyphenated form, which is always 36 characters long.
#[verifier::external_body]
pub(crate) fn random_uuid() -> (r: String)
    ensures
        r@.len() == 36,
{
    uuid::Uuid::new_v4().to_string()
}

/// The identity reported before the application identifies its user.
pub struct AnonymousDistinctId(pub String);

/// The application's own identity for its user.
pub struct DistinctId(pub String);

/// The per-installation identifier.
pub struct DeviceId(pub String);

impl View for AnonymousDistinctId {
    type V = Seq<char>;

    open spec fn view(&self) -> Seq<char> {
        self.0@
    }
}

impl View for DistinctId {
    type V = Seq<char>;

    open spec fn view(&self) -> Seq<char> {
        self.0@
    }
}

impl View for DeviceId {
    type V = Seq<char>;

    open spec fn view(&self) -> Seq<char> {
        self.0@
    }
}

/// The text every generated device id begins with.
pub open spec fn device_prefix() -> Seq<char> {
    seq!['D', 'I', 'D', 'S', '-', 'D', 'E', 'V', '-']
}

impl AnonymousDistinctId {
    /// A freshly generated anonymous id.
    pub fn new() -> (r: AnonymousDistinctId)
        ensures
            r@.len() == 36,
    {
        AnonymousDistinctId(time_ordered_uuid())
    }

    pub fn as_str(&self) -> (r: &str)
        ensures
            r@ == self@,
    {
        self.0.as_str()
    }

    /// The id as text.
    pub fn to_string(&self) -> (r: String)
        ensures
            r@ == self@,
    {
        self.0.clone()
    }

    pub fn duplicate(&self) -> (r: AnonymousDistinctId)
        ensures
            r@ == self@,
    {
        AnonymousDistinctId(self.0.clone())
    }

    pub fn equals(&self, other: &AnonymousDistinctId) -> (r: bool)
        ensures
            r == (self@ == other@),
    {
        self.0 == other.0
    }
}

impl DistinctId {
    pub fn as_str(&self) -> (r: &str)
        ensures
            r@ == self@,
    {
        self.0.as_str()
    }

    /// The id as text.
    pub fn to_string(&self) -> (r: String)
        ensures
            r@ == self@,
    {
        self.0.clone()
    }

    pub fn duplicate(&self) -> (r: DistinctId)
        ensures
            r@ == self@,
    {
        DistinctId(self.0.clone())
    }

    pub fn equals(&self, other: &DistinctId) -> (r: bool)
        ensures
            r == (self@ == other@),
    {
        self.0 == other.0
    }
}

impl DeviceId {
    /// A freshly generated device id: `DIDS-DEV-` followed by a time-ordered UUID.
    pub fn new() -> (r: DeviceId)
        ensures
            r@.len() == 45,
            r@.subrange(0, 9) == device_prefix(),
    {
        proof {
            reveal_strlit("DIDS-DEV-");
        }
        let mut s = String::from_str("DIDS-DEV-");
        let id = time_ordered_uuid();
        s.append(id.as_str());
        assert(s@.subrange(0, 9) =~= device_prefix());
        DeviceId(s)
    }

    pub fn as_str(&self) -> (r: &str)
        ensures
            r@ == self@,
    {
        self.0.as_str()
    }

    /// The id as text.
    pub fn to_string(&self) -> (r: String)
        ensures
            r@ == self@,
    {
        self.0.clone()
    }

    pub fn duplicate(&self) -> (r: DeviceId)
        ensures
            r@ == self@,
    {
        DeviceId(self.0.clone())
    }
}

impl Default for AnonymousDistinctId {
    fn default() -> (r: AnonymousDistinctId)
        ensures
            r@.len() == 36,
    {
        AnonymousDistinctId::new()
    }
}

impl Default for DeviceId {
    fn default() -> (r: DeviceId)
        ensures
            r@.len() == 45,
    {
        DeviceId::new()
    }
}

impl From<String> for AnonymousDistinctId {
    fn from(value: String) -> (r: AnonymousDistinctId) {
        AnonymousDistinctId(value)
    }
}

impl vstd::std_specs::convert::FromSpecImpl<String> for AnonymousDistinctId {
    open spec fn obeys_from_spec() -> bool {
        true
    }

    open spec fn from_spec(v: String) -> AnonymousDistinctId {
        AnonymousDistinctId(v)
    }
}

impl From<String> for DistinctId {
    fn from(value: String) -> (r: DistinctId) {
        DistinctId(value)
    }
}

impl vstd::std_specs::convert::FromSpecImpl<String> for DistinctId {
    open spec fn obeys_from_spec() -> bool {
        true
    }

    open spec fn from_spec(v: String) -> DistinctId {
        DistinctId(v)
    }
}

impl From<String> for DeviceId {
    fn from(value: String) -> (r: DeviceId) {
        DeviceId(value)
    }
}

impl vstd::std_specs::convert::FromSpecImpl<String> for DeviceId {
    open spec fn obeys_from_spec() -> bool {
        true
    }

    open spec fn from_spec(v: String) -> DeviceId {
        DeviceId(v)
    }
}

} // verus!
