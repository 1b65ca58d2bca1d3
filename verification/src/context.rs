use vstd::prelude::*;

use crate::adapters::http::HttpClientConfig;
use crate::adapters::parser::HtmlParser;
use crate::settings::Settings;

verus! {

/// What a run shares: its settings, how its HTTP client is built, and its HTML parser.
pub struct AppContext {
    pub settings: Settings,
    pub http_client: HttpClientConfig,
    pub parser: HtmlParser,
}

impl AppContext {
    /// The HTTP client takes its timeout and redirect limit from the HTTP settings, and
    /// whether it ignores certificate errors from the checker settings.
    pub fn new(settings: Settings) -> (ctx: Self)
        ensures
            ctx.settings == settings,
            ctx.http_client.timeout_seconds == settings.http.timeout_seconds,
            ctx.http_client.max_redirects == settings.http.max_redirects,
            ctx.http_client.ignore_ssl == settings.checker.ignore_ssl_errors,
    {
        let http_client = HttpClientConfig::new(
            settings.http.timeout_seconds,
            settings.http.max_redirects,
            settings.checker.ignore_ssl_errors,
        );
        let parser = HtmlParser::new();
        Self { settings, http_client, parser }
    }
}

} // verus!
