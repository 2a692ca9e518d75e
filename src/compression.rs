//! Compression policy: which content encodings the server accepts, the order in
//! which they are tried, and the fallback when the server rejects one.
use vstd::prelude::*;
use vstd::std_specs::iter::IteratorSpec;

verus! {

broadcast use vstd::std_specs::vec::axiom_spec_into_iter;

/// A content encoding for request bodies.
#[derive(Clone, Copy, Debug, PartialEq, Eq, Structural)]
pub enum CompressionAlgorithm {
    Identity,
    Zstd,
}

/// The encodings the server accepts. Identity is always accepted, so only
/// zstd is recorded.
#[derive(Clone, Copy, Debug, PartialEq, Eq, Structural)]
pub struct CompressionSet {
    pub zstd: bool,
}

/// The server's policy as cached by the client.
#[derive(Clone, Copy, Debug, PartialEq, Eq, Structural)]
pub struct ServerOptions {
    pub compression_algorithms: CompressionSet,
}

/// The algorithms to try, most preferred first: zstd when accepted, then identity.
pub open spec fn algorithms_of(set: CompressionSet) -> Seq<CompressionAlgorithm> {
    if set.zstd {
        seq![CompressionAlgorithm::Zstd, CompressionAlgorithm::Identity]
    } else {
        seq![CompressionAlgorithm::Identity]
    }
}

/// The set after the server rejected `algo`: zstd is dropped; identity stays.
pub open spec fn without(set: CompressionSet, algo: CompressionAlgorithm) -> CompressionSet {
    match algo {
        CompressionAlgorithm::Identity => set,
        CompressionAlgorithm::Zstd => CompressionSet { zstd: false },
    }
}

/// Whether the advertised names mention zstd.
pub open spec fn names_zstd(names: Seq<Seq<char>>) -> bool {
    exists|i: int| 0 <= i < names.len() && names[i] == zstd_name()
}

pub open spec fn zstd_name() -> Seq<char> {
    seq!['z', 's', 't', 'd']
}

/// How a set is written in diagnostics: `CompressionSet { zstd: <bool> }`.
pub open spec fn set_text(set: CompressionSet) -> Seq<char> {
    seq!['C', 'o', 'm', 'p', 'r', 'e', 's', 's', 'i', 'o', 'n', 'S', 'e', 't', ' ', '{', ' ', 'z', 's', 't', 'd', ':', ' ']
        + (if set.zstd {
        seq!['t', 'r', 'u', 'e']
    } else {
        seq!['f', 'a', 'l', 's', 'e']
    }) + seq![' ', '}']
}

/// The one line that reports a change of server options.
pub open spec fn options_change_text(prev: ServerOptions, next: ServerOptions) -> Seq<char> {
    seq!['C', 'o', 'm', 'p', 'r', 'e', 's', 's', 'i', 'o', 'n', ' ', 'a', 'l', 'g', 'o', 'r', 'i', 't', 'h', 'm', 's', ':', ' ']
        + set_text(prev.compression_algorithms) + seq![' ', '-', '>', ' '] + set_text(
        next.compression_algorithms,
    )
}

impl CompressionAlgorithm {
    /// The `Content-Encoding` header value, none for identity.
    pub fn content_encoding(&self) -> (r: Option<String>)
        ensures
            match self {
                CompressionAlgorithm::Identity => r is None,
                CompressionAlgorithm::Zstd => r is Some && r->0@ == zstd_name(),
            },
    {
        match self {
            CompressionAlgorithm::Identity => None,
            CompressionAlgorithm::Zstd => {
                proof {
                    reveal_strlit("zstd");
                }
                Some(String::from_str("zstd"))
            },
        }
    }
}

impl CompressionSet {
    /// Forget `algo` after the server rejected it. Identity cannot be forgotten.
    pub fn delete(&mut self, algo: &CompressionAlgorithm)
        ensures
            *final(self) == without(*old(self), *algo),
    {
        match algo {
            CompressionAlgorithm::Identity => {},
            CompressionAlgorithm::Zstd => {
                self.zstd = false;
            },
        }
    }

    /// The algorithms to try, in order of preference.
    pub fn algorithms(self) -> (r: Vec<CompressionAlgorithm>)
        ensures
            r@ == algorithms_of(self),
    {
        let mut algos: Vec<CompressionAlgorithm> = Vec::with_capacity(2);
        if self.zstd {
            algos.push(CompressionAlgorithm::Zstd);
        }
        algos.push(CompressionAlgorithm::Identity);
        assert(algos@ =~= algorithms_of(self));
        algos
    }

    /// An iterator over the algorithms to try, in order of preference.
    pub fn into_iter(self) -> (r: std::vec::IntoIter<CompressionAlgorithm>)
        ensures
            r.remaining() == algorithms_of(self),
    {
        self.algorithms().into_iter()
    }

    /// The set that a server advertises by the names in `names`. Names this
    /// client does not know are ignored; identity is implied.
    pub fn from_algorithm_names(names: &Vec<String>) -> (r: CompressionSet)
        ensures
            r.zstd == names_zstd(names@.map_values(|s: String| s@)),
    {
        let ghost views = names@.map_values(|s: String| s@);
        proof {
            reveal_strlit("zstd");
        }
        let zstd = String::from_str("zstd");
        let mut found = false;
        let mut i: usize = 0;
        while i < names.len()
            invariant
                i <= names@.len(),
                views == names@.map_values(|s: String| s@),
                zstd@ == zstd_name(),
                found == exists|j: int| 0 <= j < i && views[j] == zstd_name(),
            decreases names@.len() - i,
        {
            if names[i] == zstd {
                found = true;
            }
            proof {
                if found && !(exists|j: int| 0 <= j < i && views[j] == zstd_name()) {
                    assert(views[i as int] == zstd_name());
                }
            }
            i = i + 1;
        }
        CompressionSet { zstd: found }
    }

    /// The set written as in diagnostics.
    pub fn describe(&self) -> (r: String)
        ensures
            r@ == set_text(*self),
    {
        proof {
            reveal_strlit("CompressionSet { zstd: ");
            reveal_strlit("true");
            reveal_strlit("false");
            reveal_strlit(" }");
        }
        let mut s = String::from_str("CompressionSet { zstd: ");
        if self.zstd {
            s.append("true");
        } else {
            s.append("false");
        }
        s.append(" }");
        assert(s@ =~= set_text(*self));
        s
    }
}

impl Default for CompressionSet {
    fn default() -> (r: CompressionSet)
        ensures
            r.zstd,
    {
        CompressionSet { zstd: true }
    }
}

impl Default for ServerOptions {
    fn default() -> (r: ServerOptions)
        ensures
            r.compression_algorithms.zstd,
    {
        ServerOptions { compression_algorithms: CompressionSet { zstd: true } }
    }
}

impl ServerOptions {
    /// A description of what changed since `prev`: nothing when equal, else one line.
    pub fn diff(&self, prev: &ServerOptions) -> (r: Vec<String>)
        ensures
            *self == *prev ==> r@.len() == 0,
            *self != *prev ==> r@.len() == 1 && r@[0]@ == options_change_text(*prev, *self),
    {
        if self.compression_algorithms.zstd == prev.compression_algorithms.zstd {
            return Vec::new();
        }
        proof {
            reveal_strlit("Compression algorithms: ");
            reveal_strlit(" -> ");
        }
        let mut line = String::from_str("Compression algorithms: ");
        let before = prev.compression_algorithms.describe();
        line.append(before.as_str());
        line.append(" -> ");
        let after = self.compression_algorithms.describe();
        line.append(after.as_str());
        assert(line@ =~= options_change_text(*prev, *self));
        let mut out: Vec<String> = Vec::new();
        out.push(line);
        out
    }
}

/// What to do after one attempt of a request with some encoding.
#[derive(Clone, Copy, Debug, PartialEq, Eq, Structural)]
pub enum AttemptStep {
    /// The server answered: hand its response to the caller.
    Deliver,
    /// The server rejected the encoding (HTTP 415): try the next one.
    TryNext,
}

/// The HTTP status by which a server rejects a content encoding.
pub const UNSUPPORTED_MEDIA_TYPE: u16 = 415;

/// One request's walk through the encodings that were accepted when it began.
pub struct Negotiation {
    candidates: Vec<CompressionAlgorithm>,
    next: usize,
}

impl Negotiation {
    /// The encodings still to try, in order.
    pub closed spec fn pending(&self) -> Seq<CompressionAlgorithm> {
        self.candidates@.subrange(self.next as int, self.candidates@.len() as int)
    }

    pub closed spec fn wf(&self) -> bool {
        self.next <= self.candidates@.len()
    }

    /// Begin with the encodings that `options` accepts now.
    pub fn start(options: &ServerOptions) -> (r: Negotiation)
        ensures
            r.wf(),
            r.pending() == algorithms_of(options.compression_algorithms),
    {
        let candidates = options.compression_algorithms.algorithms();
        let r = Negotiation { candidates, next: 0 };
        assert(r.pending() =~= algorithms_of(options.compression_algorithms));
        r
    }

    /// The encoding to try next; none once every one was rejected.
    pub fn current(&self) -> (r: Option<CompressionAlgorithm>)
        requires
            self.wf(),
        ensures
            self.pending().len() == 0 ==> r is None,
            self.pending().len() > 0 ==> r == Some(self.pending()[0]),
    {
        if self.next < self.candidates.len() {
            Some(self.candidates[self.next])
        } else {
            None
        }
    }

    /// Record the server's answer `status` to the current encoding. A 415
    /// evicts that encoding from `options` and moves on; any other status is
    /// the answer to deliver.
    pub fn on_status(&mut self, options: &mut ServerOptions, status: u16) -> (r: AttemptStep)
        requires
            old(self).wf(),
            old(self).pending().len() > 0,
        ensures
            final(self).wf(),
            status == UNSUPPORTED_MEDIA_TYPE ==> {
                &&& r == AttemptStep::TryNext
                &&& final(options).compression_algorithms == without(
                    old(options).compression_algorithms,
                    old(self).pending()[0],
                )
                &&& final(self).pending() == old(self).pending().drop_first()
            },
            status != UNSUPPORTED_MEDIA_TYPE ==> {
                &&& r == AttemptStep::Deliver
                &&& *final(options) == *old(options)
                &&& final(self).pending() == old(self).pending()
            },
    {
        if status == UNSUPPORTED_MEDIA_TYPE {
            assert(self.pending().len() == self.candidates@.len() - self.next);
            assert(self.pending()[0] == self.candidates@[self.next as int]);
            let count = self.candidates.len();
            assert(self.next < count);
            let algo = self.candidates[self.next];
            options.compression_algorithms.delete(&algo);
            self.next = self.next + 1;
            assert(self.pending() =~= old(self).pending().drop_first());
            AttemptStep::TryNext
        } else {
            AttemptStep::Deliver
        }
    }
}

/// The set after the server rejected each of `algos` in turn.
pub open spec fn without_all(set: CompressionSet, algos: Seq<CompressionAlgorithm>) -> CompressionSet
    decreases algos.len(),
{
    if algos.len() == 0 {
        set
    } else {
        without_all(without(set, algos[0]), algos.drop_first())
    }
}

/// When the server rejects every encoding of a request, each accepted one is
/// tried once, most preferred first; zstd is evicted from the cached set at
/// its own rejection and at no other, identity is never evicted, and once
/// identity was rejected nothing is left to try.
pub proof fn law_rejections_evict_once(set: CompressionSet)
    ensures
        algorithms_of(set).last() == CompressionAlgorithm::Identity,
        set.zstd ==> algorithms_of(set)[0] == CompressionAlgorithm::Zstd && !without(
            set,
            CompressionAlgorithm::Zstd,
        ).zstd && algorithms_of(set).drop_first() == seq![CompressionAlgorithm::Identity],
        without(set, CompressionAlgorithm::Identity) == set,
        !without_all(set, algorithms_of(set)).zstd,
{
    reveal_with_fuel(without_all, 3);
    if set.zstd {
        let a = algorithms_of(set);
        assert(a.drop_first() =~= seq![CompressionAlgorithm::Identity]);
        assert(a.drop_first().drop_first() =~= Seq::<CompressionAlgorithm>::empty());
    } else {
        let a = algorithms_of(set);
        assert(a.drop_first() =~= Seq::<CompressionAlgorithm>::empty());
    }
}

} // verus!
