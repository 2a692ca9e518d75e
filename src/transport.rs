//! Which transport a client uses: chosen from the configured endpoint, with
//! the fallbacks the builder applies, and what the transport that talks to
//! no server answers without any I/O.
use crate::checkin::Checkin;
use vstd::prelude::*;

verus! {

/// What `url::Url::parse` makes of a text: its scheme and path, or the error,
/// none standing for "relative URL without a base".
pub uninterp spec fn url_parse_of(s: Seq<char>) -> Result<(Seq<char>, Seq<char>), Option<Seq<char>>>;

/// Relies on url::Url::parse, Url::scheme and Url::path: the scheme and path
/// of the URL `s`, or why it is no URL (none for a relative URL without a
/// base, else the error's message).
#[verifier::external_body]
fn parse_url(s: &str) -> (r: Result<(String, String), Option<String>>)
    ensures
        match r {
            Ok((scheme, path)) => url_parse_of(s@) == Ok::<(Seq<char>, Seq<char>), Option<Seq<char>>>((scheme@, path@)),
            Err(None) => url_parse_of(s@) == Err::<(Seq<char>, Seq<char>), Option<Seq<char>>>(None),
            Err(Some(m)) => url_parse_of(s@) == Err::<(Seq<char>, Seq<char>), Option<Seq<char>>>(Some(m@)),
        },
{
    match url::Url::parse(s) {
        Ok(u) => Ok((u.scheme().to_string(), u.path().to_string())),
        Err(url::ParseError::RelativeUrlWithoutBase) => Err(None),
        Err(e) => Err(Some(e.to_string())),
    }
}

/// The transport to build.
pub enum TransportSpec {
    /// Talks to no server: check-ins are empty and submissions are dropped.
    Offline,
    /// Writes batches to the file at `path`.
    File { path: String },
    /// Talks to the server at `url`.
    Http { url: String },
    /// Talks to the servers found by DNS service discovery.
    SrvHttp,
}

/// Why a configured endpoint cannot be used.
pub enum TransportsError {
    UnknownUrlScheme,
    /// The endpoint is no URL; the text says why.
    Parse(String),
}

pub enum TransportView {
    Offline,
    File(Seq<char>),
    Http(Seq<char>),
    SrvHttp,
}

pub enum ErrorView {
    UnknownUrlScheme,
    Parse(Seq<char>),
}

impl View for TransportSpec {
    type V = TransportView;

    open spec fn view(&self) -> TransportView {
        match self {
            TransportSpec::Offline => TransportView::Offline,
            TransportSpec::File { path } => TransportView::File(path@),
            TransportSpec::Http { url } => TransportView::Http(url@),
            TransportSpec::SrvHttp => TransportView::SrvHttp,
        }
    }
}

impl View for TransportsError {
    type V = ErrorView;

    open spec fn view(&self) -> ErrorView {
        match self {
            TransportsError::UnknownUrlScheme => ErrorView::UnknownUrlScheme,
            TransportsError::Parse(m) => ErrorView::Parse(m@),
        }
    }
}

/// The text actually parsed for an endpoint: the endpoint itself, or, when it
/// is a relative URL without a base, the endpoint as a `file://` URL.
pub open spec fn effective_url(v: Seq<char>) -> Seq<char> {
    if url_parse_of(v) == Err::<(Seq<char>, Seq<char>), Option<Seq<char>>>(None) {
        "file://"@ + v
    } else {
        v
    }
}

/// The transport an endpoint selects: `http` and `https` URLs talk to that
/// server, `file` URLs write to the file at their path, and any other
/// scheme is refused; no endpoint means DNS service discovery.
pub open spec fn selection(v: Option<Seq<char>>) -> Result<TransportView, ErrorView> {
    match v {
        None => Ok(TransportView::SrvHttp),
        Some(v) => {
            let u = effective_url(v);
            match url_parse_of(u) {
                Ok((scheme, path)) => if scheme == "https"@ || scheme == "http"@ {
                    Ok(TransportView::Http(u))
                } else if scheme == "file"@ {
                    Ok(TransportView::File(path))
                } else {
                    Err(ErrorView::UnknownUrlScheme)
                },
                Err(None) => Err(ErrorView::Parse("relative URL without a base"@)),
                Err(Some(m)) => Err(ErrorView::Parse(m)),
            }
        },
    }
}

pub open spec fn result_view(r: Result<TransportSpec, TransportsError>) -> Result<TransportView, ErrorView> {
    match r {
        Ok(t) => Ok(t@),
        Err(e) => Err(e@),
    }
}

pub open spec fn opt_text(o: Option<String>) -> Option<Seq<char>> {
    match o {
        Some(s) => Some(s@),
        None => None,
    }
}

/// The transport the endpoint `value` selects.
pub fn try_new(value: Option<String>) -> (r: Result<TransportSpec, TransportsError>)
    ensures
        result_view(r) == selection(opt_text(value)),
{
    let value = match value {
        Some(v) => v,
        None => {
            return Ok(TransportSpec::SrvHttp);
        },
    };
    let first = parse_url(value.as_str());
    let (text, parsed) = match first {
        Err(None) => {
            let mut prefixed = String::from_str("file://");
            prefixed.append(value.as_str());
            let again = parse_url(prefixed.as_str());
            (prefixed, again)
        },
        other => (value, other),
    };
    match parsed {
        Ok((scheme, path)) => {
            let https = String::from_str("https");
            let http = String::from_str("http");
            let file = String::from_str("file");
            if scheme == https || scheme == http {
                Ok(TransportSpec::Http { url: text })
            } else if scheme == file {
                Ok(TransportSpec::File { path })
            } else {
                Err(TransportsError::UnknownUrlScheme)
            }
        },
        Err(None) => Err(TransportsError::Parse(String::from_str("relative URL without a base"))),
        Err(Some(m)) => Err(TransportsError::Parse(m)),
    }
}

/// The transport a builder configures: none when reporting is disabled,
/// else the one its endpoint selects.
pub fn configured(enable_reporting: bool, endpoint: Option<String>) -> (r: Result<
    TransportSpec,
    TransportsError,
>)
    ensures
        !enable_reporting ==> r matches Ok(TransportSpec::Offline),
        enable_reporting ==> result_view(r) == selection(opt_text(endpoint)),
{
    if enable_reporting {
        try_new(endpoint)
    } else {
        Ok(TransportSpec::Offline)
    }
}

/// The transport to use when a configured one may have failed: the
/// configured one, else DNS service discovery. (Where that cannot be built
/// either, the transport that talks to no server is used.)
pub fn transport_or_default(configured: Result<TransportSpec, TransportsError>) -> (r: TransportSpec)
    ensures
        configured matches Ok(t) ==> r@ == t@,
        configured is Err ==> r@ == TransportView::SrvHttp,
{
    match configured {
        Ok(t) => t,
        Err(_) => TransportSpec::SrvHttp,
    }
}

/// What the transport that talks to no server answers, with no I/O: every
/// submission succeeds and every check-in is the empty document. Other
/// transports have to ask their server or file: none.
pub fn offline_checkin(spec: &TransportSpec) -> (r: Option<Checkin>)
    ensures
        spec is Offline ==> (r matches Some(c) && c.wf() && c.flags().len() == 0),
        !(spec is Offline) ==> r is None,
{
    match spec {
        TransportSpec::Offline => Some(Checkin::empty()),
        _ => None,
    }
}

/// Whether a submission needs I/O; the transport that talks to no server
/// drops every batch and reports success.
pub fn submission_needs_io(spec: &TransportSpec) -> (r: bool)
    ensures
        r == !(spec is Offline),
{
    match spec {
        TransportSpec::Offline => false,
        _ => true,
    }
}

} // verus!
