use vstd::prelude::*;

verus! {

#[verifier::external_type_specification]
#[verifier::external_body]
pub struct ExUrl(url::Url);

/// What `url::Url::parse` makes of `input`: the serialization of the absolute URL it parses,
/// or `None` where it returns an error.
pub uninterp spec fn spec_url_parse(input: Seq<char>) -> Option<Seq<char>>;

/// What `url::Url::join` makes of `input` against the URL serialized as `base`: the
/// serialization of the resolved URL, or `None` where it returns an error.
pub uninterp spec fn spec_url_join(base: Seq<char>, input: Seq<char>) -> Option<Seq<char>>;

/// The scheme of a URL serialized as `href`: all that comes before its first `:`.
pub open spec fn spec_url_scheme(href: Seq<char>) -> Seq<char>
    decreases href.len(),
{
    if href.len() == 0 || href[0] == ':' {
        Seq::empty()
    } else {
        seq![href[0]] + spec_url_scheme(href.drop_first())
    }
}

/// What `url::Url::host_str` returns for the URL serialized as `href`.
pub uninterp spec fn spec_url_host(href: Seq<char>) -> Option<Seq<char>>;

/// The `(scheme, host, port)` of a tuple origin that `url::Url::origin` returns for the URL
/// serialized as `href` (the host in its serialized form), or `None` where the origin is opaque.
pub uninterp spec fn spec_url_tuple_origin(href: Seq<char>) -> Option<(Seq<char>, Seq<char>, u16)>;

/// An absolute URL, as parsed by the `url` crate, together with its serialization.
///
/// The serialization determines the URL: the `url` crate re-parses every serialization it
/// produces to the same URL. So every property of a `WebUrl` is stated over its view, the
/// serialization.
pub struct WebUrl {
    inner: url::Url,
    href: String,
}

impl View for WebUrl {
    type V = Seq<char>;

    closed spec fn view(&self) -> Seq<char> {
        self.href@
    }
}

/// The serializations that an optional URL holds.
pub open spec fn opt_url_view(u: Option<WebUrl>) -> Option<Seq<char>> {
    match u {
        Some(u) => Some(u@),
        None => None,
    }
}

/// Calls `url::Url::parse`: the result is the named one, `spec_url_parse`, of the input.
#[verifier::external_body]
fn parse_url(input: &str) -> (res: Option<WebUrl>)
    ensures
        opt_url_view(res) == spec_url_parse(input@),
{
    match url::Url::parse(input) {
        Ok(u) => Some(WebUrl { href: u.as_str().to_string(), inner: u }),
        Err(_) => None,
    }
}

/// Calls `url::Url::join` on the base URL: the result is the named one, `spec_url_join`.
#[verifier::external_body]
fn join_url(base: &WebUrl, input: &str) -> (res: Option<WebUrl>)
    ensures
        opt_url_view(res) == spec_url_join(base@, input@),
{
    match base.inner.join(input) {
        Ok(u) => Some(WebUrl { href: u.as_str().to_string(), inner: u }),
        Err(_) => None,
    }
}

/// Calls `url::Url::scheme`. The `url` crate serializes a URL as its scheme, a `:`, and the
/// rest; a scheme holds no `:`. So the scheme is what comes before the first `:`.
#[verifier::external_body]
fn url_scheme(u: &WebUrl) -> (res: String)
    ensures
        res@ == spec_url_scheme(u@),
{
    u.inner.scheme().to_string()
}

/// Calls `url::Url::host_str`: the result is the named one, `spec_url_host`.
#[verifier::external_body]
fn url_host(u: &WebUrl) -> (res: Option<String>)
    ensures
        res.deep_view() == spec_url_host(u@),
{
    match u.inner.host_str() {
        Some(h) => Some(h.to_string()),
        None => None,
    }
}

/// Calls `url::Url::origin`: a tuple origin comes back as its scheme, serialized host and
/// port, which are the named ones, `spec_url_tuple_origin`; an opaque origin, which equals no
/// other origin that `origin` returns, comes back as `None`.
#[verifier::external_body]
fn url_tuple_origin(u: &WebUrl) -> (res: Option<(String, String, u16)>)
    ensures
        res.deep_view() == spec_url_tuple_origin(u@),
{
    match u.inner.origin() {
        url::Origin::Tuple(scheme, host, port) => Some((scheme, host.to_string(), port)),
        url::Origin::Opaque(_) => None,
    }
}

/// What `url::Url::from_file_path` makes of the file path `path`: the serialization of the
/// `file:` URL it builds, or `None` where it returns an error (a path that is not absolute).
/// It depends on the path alone, under the path rules of the platform the program is built for.
pub uninterp spec fn spec_url_from_file_path(path: Seq<char>) -> Option<Seq<char>>;

/// Calls `url::Url::from_file_path` on the path: the result is the named one,
/// `spec_url_from_file_path`. Its source shows that every URL it builds is serialized with
/// the prefix `file://`.
#[verifier::external_body]
fn url_from_file_path(path: &str) -> (res: Option<WebUrl>)
    ensures
        opt_url_view(res) == spec_url_from_file_path(path@),
        res matches Some(u) ==> u@.len() >= 7 && u@.subrange(0, 7) == "file://"@,
{
    match url::Url::from_file_path(path) {
        Ok(u) => Some(WebUrl { href: u.as_str().to_string(), inner: u }),
        Err(_) => None,
    }
}

impl WebUrl {
    /// Parses an absolute URL.
    pub fn parse(input: &str) -> (res: Option<WebUrl>)
        ensures
            opt_url_view(res) == spec_url_parse(input@),
    {
        parse_url(input)
    }

    /// Resolves `input` against this URL, as a link found on its page is resolved.
    pub fn join(&self, input: &str) -> (res: Option<WebUrl>)
        ensures
            opt_url_view(res) == spec_url_join(self@, input@),
    {
        join_url(self, input)
    }

    /// The URL of a file, given by its absolute path.
    pub fn from_file_path(path: &str) -> (res: Option<WebUrl>)
        ensures
            opt_url_view(res) == spec_url_from_file_path(path@),
            res matches Some(u) ==> u@.len() >= 7 && u@.subrange(0, 7) == "file://"@,
    {
        url_from_file_path(path)
    }

    /// The serialization of the URL.
    pub fn as_str(&self) -> (res: &str)
        ensures
            res@ == self@,
    {
        self.href.as_str()
    }

    /// The scheme, lower-cased.
    pub fn scheme(&self) -> (res: String)
        ensures
            res@ == spec_url_scheme(self@),
    {
        url_scheme(self)
    }

    /// The host, serialized, where the URL has one.
    pub fn host_str(&self) -> (res: Option<String>)
        ensures
            res.deep_view() == spec_url_host(self@),
    {
        url_host(self)
    }

    /// The origin where it is a tuple of scheme, host and port; `None` where it is opaque.
    pub fn tuple_origin(&self) -> (res: Option<(String, String, u16)>)
        ensures
            res.deep_view() == spec_url_tuple_origin(self@),
    {
        url_tuple_origin(self)
    }
}

} // verus!
