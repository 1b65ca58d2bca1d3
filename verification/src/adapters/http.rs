use vstd::prelude::*;

verus! {

/// A status code that marks a link as broken: 404, or any code of the 5xx class.
pub open spec fn spec_is_broken_status(code: u16) -> bool {
    code == 404 || (500 <= code && code < 600)
}

/// Only 404 and 5xx are considered broken.
pub fn is_broken_status(code: u16) -> (broken: bool)
    ensures
        broken == spec_is_broken_status(code),
{
    code == 404 || (500 <= code && code < 600)
}

/// Which statuses are broken: every status of the 5xx class, and 404; no other status, so
/// no 1xx, 2xx, 3xx or other 4xx status, and none from 600 up.
pub proof fn lemma_broken_statuses(code: u16)
    ensures
        500 <= code < 600 ==> spec_is_broken_status(code),
        code == 404 ==> spec_is_broken_status(code),
        code < 500 && code != 404 ==> !spec_is_broken_status(code),
        code >= 600 ==> !spec_is_broken_status(code),
{
}

/// All statuses of the 5xx class are alike: one is broken exactly when another is.
pub proof fn lemma_server_errors_alike(a: u16, b: u16)
    requires
        500 <= a < 600,
        500 <= b < 600,
    ensures
        spec_is_broken_status(a) == spec_is_broken_status(b),
        spec_is_broken_status(a),
{
}

/// The user agent that every request names.
pub const USER_AGENT: &'static str = "Mozilla/5.0 (Macintosh; Intel Mac OS X 10_15_7) AppleWebKit/537.36 (KHTML, like Gecko) Chrome/120.0.0.0 Safari/537.36";

/// How the HTTP client is built: its request timeout, how many redirects it follows, and
/// whether it accepts invalid TLS certificates.
pub struct HttpClientConfig {
    pub timeout_seconds: u64,
    pub max_redirects: u32,
    pub ignore_ssl: bool,
}

impl HttpClientConfig {
    pub fn new(timeout_seconds: u64, max_redirects: u32, ignore_ssl: bool) -> (c: Self)
        ensures
            c.timeout_seconds == timeout_seconds,
            c.max_redirects == max_redirects,
            c.ignore_ssl == ignore_ssl,
    {
        Self { timeout_seconds, max_redirects, ignore_ssl }
    }
}

impl Default for HttpClientConfig {
    /// A timeout of 10 seconds, at most 5 redirects, and invalid certificates refused.
    fn default() -> (c: Self)
        ensures
            c.timeout_seconds == 10,
            c.max_redirects == 5,
            !c.ignore_ssl,
    {
        Self::new(10, 5, false)
    }
}

} // verus!
