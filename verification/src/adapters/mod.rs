use vstd::prelude::*;

pub mod http;
pub mod parser;
pub mod web_url;

verus! {

/// The command line: the target and the settings it overrides.
pub struct Cli {
    pub url: Option<String>,
    pub file: Option<String>,
    pub timeout_seconds: Option<u64>,
    pub max_redirects: Option<u8>,
    pub max_depth: Option<usize>,
    pub max_concurrent_requests: Option<usize>,
    pub same_domain_only: Option<bool>,
    pub check_external_links: Option<bool>,
    pub ignore_ssl_errors: Option<bool>,
    pub retry_attempts: Option<u8>,
    pub output_format: Option<String>,
    pub show_successful: Option<bool>,
}

} // verus!
