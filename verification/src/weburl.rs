//! The parts of a parsed URL that the login checks read, taken from the
//! `url` crate.
use vstd::prelude::*;

verus! {

#[verifier::external_type_specification]
#[verifier::external_body]
pub struct ExUrl(url::Url);

/// A host as the URL parser reports it.
pub enum UrlHost {
    Domain(String),
    Ipv4([u8; 4]),
    Ipv6([u16; 8]),
}

/// A host over plain values.
pub enum HostView {
    Domain(Seq<char>),
    Ipv4(Seq<u8>),
    Ipv6(Seq<u16>),
}

impl View for UrlHost {
    type V = HostView;

    open spec fn view(&self) -> HostView {
        match self {
            UrlHost::Domain(d) => HostView::Domain(d@),
            UrlHost::Ipv4(a) => HostView::Ipv4(a@),
            UrlHost::Ipv6(a) => HostView::Ipv6(a@),
        }
    }
}

pub open spec fn opt_host_view(h: Option<UrlHost>) -> Option<HostView> {
    match h {
        Some(h) => Some(h@),
        None => None,
    }
}

pub open spec fn opt_text_view(s: Option<String>) -> Option<Seq<char>> {
    match s {
        Some(s) => Some(s@),
        None => None,
    }
}

/// Whether `url::Url::parse` accepts the text.
pub uninterp spec fn url_parses(input: Seq<char>) -> bool;

/// `Url::scheme` of the URL parsed from the text.
pub uninterp spec fn url_scheme_of(input: Seq<char>) -> Seq<char>;

/// `Url::username` of the URL parsed from the text.
pub uninterp spec fn url_username_of(input: Seq<char>) -> Seq<char>;

/// `Url::password` of the URL parsed from the text.
pub uninterp spec fn url_password_of(input: Seq<char>) -> Option<Seq<char>>;

/// `Url::fragment` of the URL parsed from the text.
pub uninterp spec fn url_fragment_of(input: Seq<char>) -> Option<Seq<char>>;

/// `Url::host` of the URL parsed from the text.
pub uninterp spec fn url_host_of(input: Seq<char>) -> Option<HostView>;

/// A URL together with the text it was parsed from. Only `parse_url`
/// builds one.
pub struct ParsedUrl {
    url: url::Url,
    source: String,
}

impl ParsedUrl {
    pub closed spec fn source(&self) -> Seq<char> {
        self.source@
    }
}

/// Calls `url::Url::parse`. Trusted: the result is present exactly when the
/// parser accepts the text, and it remembers that text.
#[verifier::external_body]
pub(crate) fn parse_url(input: &str) -> (r: Option<ParsedUrl>)
    ensures
        r is Some <==> url_parses(input@),
        r matches Some(p) ==> p.source() == input@,
{
    match url::Url::parse(input) {
        Ok(url) => Some(ParsedUrl { url, source: input.to_owned() }),
        Err(_) => None,
    }
}

/// Calls `url::Url::scheme`. Trusted: the result is the scheme named
/// `url_scheme_of` the source text.
#[verifier::external_body]
pub(crate) fn url_scheme(p: &ParsedUrl) -> (r: String)
    ensures
        r@ == url_scheme_of(p.source()),
{
    p.url.scheme().to_owned()
}

/// Calls `url::Url::username`. Trusted: the result is named
/// `url_username_of` the source text.
#[verifier::external_body]
pub(crate) fn url_username(p: &ParsedUrl) -> (r: String)
    ensures
        r@ == url_username_of(p.source()),
{
    p.url.username().to_owned()
}

/// Calls `url::Url::password`. Trusted: the result is named
/// `url_password_of` the source text.
#[verifier::external_body]
pub(crate) fn url_password(p: &ParsedUrl) -> (r: Option<String>)
    ensures
        opt_text_view(r) == url_password_of(p.source()),
{
    match p.url.password() {
        Some(password) => Some(password.to_owned()),
        None => None,
    }
}

/// Calls `url::Url::fragment`. Trusted: the result is named
/// `url_fragment_of` the source text.
#[verifier::external_body]
pub(crate) fn url_fragment(p: &ParsedUrl) -> (r: Option<String>)
    ensures
        opt_text_view(r) == url_fragment_of(p.source()),
{
    match p.url.fragment() {
        Some(fragment) => Some(fragment.to_owned()),
        None => None,
    }
}

/// Calls `url::Url::host`. Trusted: the result is named `url_host_of` the
/// source text; addresses are given by their octets and segments.
#[verifier::external_body]
pub(crate) fn url_host(p: &ParsedUrl) -> (r: Option<UrlHost>)
    ensures
        opt_host_view(r) == url_host_of(p.source()),
{
    match p.url.host() {
        Some(url::Host::Domain(domain)) => Some(UrlHost::Domain(domain.to_owned())),
        Some(url::Host::Ipv4(address)) => Some(UrlHost::Ipv4(address.octets())),
        Some(url::Host::Ipv6(address)) => Some(UrlHost::Ipv6(address.segments())),
        None => None,
    }
}

} // verus!
