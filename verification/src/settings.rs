use vstd::prelude::*;

use crate::adapters::Cli;

verus! {

/// What `str::to_lowercase` returns for `s`: its Unicode lowercase mapping.
pub uninterp spec fn spec_to_lowercase(s: Seq<char>) -> Seq<char>;

/// A character in the ASCII range.
pub open spec fn spec_is_ascii_char(c: char) -> bool {
    (c as u32) < 128
}

/// The ASCII lowercase of a character: `A` to `Z` become `a` to `z`, every other character
/// stays.
pub open spec fn spec_ascii_lower(c: char) -> char {
    if 65 <= (c as u32) <= 90 {
        ((c as u32) + 32) as char
    } else {
        c
    }
}

/// Calls `str::to_lowercase`: the result is the named one, `spec_to_lowercase`. The Unicode
/// lowercase mapping turns `A` to `Z` into `a` to `z` and keeps every other ASCII character,
/// so an ASCII string is lower-cased character by character.
#[verifier::external_body]
fn to_lowercase(s: &str) -> (res: String)
    ensures
        res@ == spec_to_lowercase(s@),
        (forall|i: int| 0 <= i < s@.len() ==> spec_is_ascii_char(#[trigger] s@[i]))
            ==> res@ == s@.map_values(|c: char| spec_ascii_lower(c)),
{
    s.to_lowercase()
}

/// All settings of a run.
pub struct Settings {
    pub http: HttpSettings,
    pub crawlet: CrawletSettings,
    pub checker: CheckerSettings,
    pub output: OutputSettings,
}

/// HTTP client settings.
pub struct HttpSettings {
    pub timeout_seconds: u64,
    pub max_redirects: u32,
}

/// Crawler settings.
pub struct CrawletSettings {
    pub max_depth: u32,
    pub max_concurrent_requests: u32,
    pub same_domain_only: bool,
}

/// Link checker settings.
pub struct CheckerSettings {
    pub check_external_links: bool,
    pub ignore_ssl_errors: bool,
    pub retry_attempts: u32,
}

/// Output settings.
pub struct OutputSettings {
    pub output_format: OutputFormat,
    pub show_successful: bool,
}

/// How the results are printed.
#[derive(Debug, Clone, Copy, PartialEq, Eq, Structural)]
pub enum OutputFormat {
    Pretty,
    Json,
}

/// The format a name gives once lower-cased: `json` names the JSON format, and every other
/// name (`pretty` among them) the pretty one.
pub open spec fn spec_format_of_lowercase(name: Seq<char>) -> OutputFormat {
    if name == "json"@ {
        OutputFormat::Json
    } else {
        OutputFormat::Pretty
    }
}

/// The format that a name gives: its lowercase form decides.
pub open spec fn spec_format_of(name: Seq<char>) -> OutputFormat {
    spec_format_of_lowercase(spec_to_lowercase(name))
}

impl OutputFormat {
    /// The format of a name that is already lower-cased.
    pub fn from_lowercase(name: &str) -> (f: OutputFormat)
        ensures
            f == spec_format_of_lowercase(name@),
    {
        proof {
            reveal_strlit("pretty");
            reveal_strlit("json");
        }
        let name = name.to_string();
        let pretty = "pretty".to_string();
        let json = "json".to_string();
        assert(pretty@ == "pretty"@ && json@ == "json"@);
        assert(pretty@.len() != json@.len());
        if name == pretty {
            OutputFormat::Pretty
        } else if name == json {
            OutputFormat::Json
        } else {
            OutputFormat::Pretty
        }
    }
}

impl<'a> From<&'a str> for OutputFormat {
    /// The format that the name gives, whatever its case: for an ASCII name, the format of its
    /// ASCII lowercase form.
    fn from(s: &'a str) -> (f: Self)
        ensures
            (forall|i: int| 0 <= i < s@.len() ==> spec_is_ascii_char(#[trigger] s@[i]))
                ==> f == spec_format_of_lowercase(s@.map_values(|c: char| spec_ascii_lower(c))),
    {
        let lower = to_lowercase(s);
        OutputFormat::from_lowercase(lower.as_str())
    }
}

impl<'a> vstd::std_specs::convert::FromSpecImpl<&'a str> for OutputFormat {
    open spec fn obeys_from_spec() -> bool {
        true
    }

    open spec fn from_spec(s: &'a str) -> OutputFormat {
        spec_format_of(s@)
    }
}

impl Default for OutputFormat {
    fn default() -> (f: Self)
        ensures
            f == OutputFormat::Pretty,
    {
        OutputFormat::Pretty
    }
}

/// An optional override: the given value where there is one, else the current value.
pub open spec fn override_with<T>(given: Option<T>, current: T) -> T {
    match given {
        Some(v) => v,
        None => current,
    }
}

/// The settings with the command line's values in place of those it gives.
pub open spec fn spec_with_cli(s: Settings, cli: Cli) -> Settings {
    Settings {
        http: HttpSettings {
            timeout_seconds: override_with(cli.timeout_seconds, s.http.timeout_seconds),
            max_redirects: match cli.max_redirects {
                Some(v) => v as u32,
                None => s.http.max_redirects,
            },
        },
        crawlet: CrawletSettings {
            max_depth: match cli.max_depth {
                Some(v) => v as u32,
                None => s.crawlet.max_depth,
            },
            max_concurrent_requests: match cli.max_concurrent_requests {
                Some(v) => v as u32,
                None => s.crawlet.max_concurrent_requests,
            },
            same_domain_only: override_with(cli.same_domain_only, s.crawlet.same_domain_only),
        },
        checker: CheckerSettings {
            check_external_links: override_with(cli.check_external_links, s.checker.check_external_links),
            ignore_ssl_errors: override_with(cli.ignore_ssl_errors, s.checker.ignore_ssl_errors),
            retry_attempts: match cli.retry_attempts {
                Some(v) => v as u32,
                None => s.checker.retry_attempts,
            },
        },
        output: OutputSettings {
            output_format: match cli.output_format {
                Some(name) => spec_format_of(name@),
                None => s.output.output_format,
            },
            show_successful: override_with(cli.show_successful, s.output.show_successful),
        },
    }
}

/// The settings that hold where no configuration file gives others.
pub open spec fn spec_default_settings() -> Settings {
    Settings {
        http: HttpSettings { timeout_seconds: 30, max_redirects: 5 },
        crawlet: CrawletSettings { max_depth: 3, max_concurrent_requests: 10, same_domain_only: true },
        checker: CheckerSettings { check_external_links: true, ignore_ssl_errors: true, retry_attempts: 3 },
        output: OutputSettings { output_format: OutputFormat::Pretty, show_successful: false },
    }
}

impl Settings {
    /// Overrides each setting that the command line gives.
    pub fn with_cli(self, cli: &Cli) -> (res: Self)
        ensures
            res == spec_with_cli(self, *cli),
    {
        let http = HttpSettings {
            timeout_seconds: match cli.timeout_seconds {
                Some(v) => v,
                None => self.http.timeout_seconds,
            },
            max_redirects: match cli.max_redirects {
                Some(v) => v as u32,
                None => self.http.max_redirects,
            },
        };
        let crawlet = CrawletSettings {
            max_depth: match cli.max_depth {
                Some(v) => v as u32,
                None => self.crawlet.max_depth,
            },
            max_concurrent_requests: match cli.max_concurrent_requests {
                Some(v) => v as u32,
                None => self.crawlet.max_concurrent_requests,
            },
            same_domain_only: match cli.same_domain_only {
                Some(v) => v,
                None => self.crawlet.same_domain_only,
            },
        };
        let checker = CheckerSettings {
            check_external_links: match cli.check_external_links {
                Some(v) => v,
                None => self.checker.check_external_links,
            },
            ignore_ssl_errors: match cli.ignore_ssl_errors {
                Some(v) => v,
                None => self.checker.ignore_ssl_errors,
            },
            retry_attempts: match cli.retry_attempts {
                Some(v) => v as u32,
                None => self.checker.retry_attempts,
            },
        };
        let output = OutputSettings {
            output_format: match &cli.output_format {
                Some(name) => OutputFormat::from(name.as_str()),
                None => self.output.output_format,
            },
            show_successful: match cli.show_successful {
                Some(v) => v,
                None => self.output.show_successful,
            },
        };
        let s = Settings { http, crawlet, checker, output };
        s
    }
}

impl Default for Settings {
    fn default() -> (s: Self)
        ensures
            s == spec_default_settings(),
    {
        Self {
            http: HttpSettings { timeout_seconds: 30, max_redirects: 5 },
            crawlet: CrawletSettings {
                max_depth: 3,
                max_concurrent_requests: 10,
                same_domain_only: true,
            },
            checker: CheckerSettings {
                check_external_links: true,
                ignore_ssl_errors: true,
                retry_attempts: 3,
            },
            output: OutputSettings { output_format: OutputFormat::Pretty, show_successful: false },
        }
    }
}

/// Overriding twice with the same command line gives what overriding once gives.
pub proof fn lemma_with_cli_idempotent(s: Settings, cli: Cli)
    ensures
        spec_with_cli(spec_with_cli(s, cli), cli) == spec_with_cli(s, cli),
{
}

/// Each setting the command line gives replaces the configured one, whatever that was: the
/// counts converted to `u32`, the format named by its lowercase form. Each setting it does not
/// give stays as configured.
pub proof fn lemma_with_cli_overrides_win(s: Settings, cli: Cli)
    ensures
        cli.timeout_seconds matches Some(v) ==> spec_with_cli(s, cli).http.timeout_seconds == v,
        cli.max_redirects matches Some(v) ==> spec_with_cli(s, cli).http.max_redirects == v as u32,
        cli.max_depth matches Some(v) ==> spec_with_cli(s, cli).crawlet.max_depth == v as u32,
        cli.max_concurrent_requests matches Some(v)
            ==> spec_with_cli(s, cli).crawlet.max_concurrent_requests == v as u32,
        cli.same_domain_only matches Some(v) ==> spec_with_cli(s, cli).crawlet.same_domain_only == v,
        cli.check_external_links matches Some(v)
            ==> spec_with_cli(s, cli).checker.check_external_links == v,
        cli.ignore_ssl_errors matches Some(v) ==> spec_with_cli(s, cli).checker.ignore_ssl_errors == v,
        cli.retry_attempts matches Some(v) ==> spec_with_cli(s, cli).checker.retry_attempts == v as u32,
        cli.output_format matches Some(name)
            ==> spec_with_cli(s, cli).output.output_format == spec_format_of_lowercase(spec_to_lowercase(name@)),
        cli.show_successful matches Some(v) ==> spec_with_cli(s, cli).output.show_successful == v,
        cli.timeout_seconds is None ==> spec_with_cli(s, cli).http.timeout_seconds == s.http.timeout_seconds,
        cli.max_redirects is None ==> spec_with_cli(s, cli).http.max_redirects == s.http.max_redirects,
        cli.max_depth is None ==> spec_with_cli(s, cli).crawlet.max_depth == s.crawlet.max_depth,
        cli.max_concurrent_requests is None
            ==> spec_with_cli(s, cli).crawlet.max_concurrent_requests == s.crawlet.max_concurrent_requests,
        cli.same_domain_only is None ==> spec_with_cli(s, cli).crawlet.same_domain_only == s.crawlet.same_domain_only,
        cli.check_external_links is None
            ==> spec_with_cli(s, cli).checker.check_external_links == s.checker.check_external_links,
        cli.ignore_ssl_errors is None ==> spec_with_cli(s, cli).checker.ignore_ssl_errors == s.checker.ignore_ssl_errors,
        cli.retry_attempts is None ==> spec_with_cli(s, cli).checker.retry_attempts == s.checker.retry_attempts,
        cli.output_format is None ==> spec_with_cli(s, cli).output.output_format == s.output.output_format,
        cli.show_successful is None ==> spec_with_cli(s, cli).output.show_successful == s.output.show_successful,
{
}

/// Two configurations overridden by a command line that gives the maximum depth end with the
/// same maximum depth: the configured one plays no part.
pub proof fn lemma_with_cli_depth_ignores_configured(a: Settings, b: Settings, cli: Cli)
    requires
        cli.max_depth is Some,
    ensures
        spec_with_cli(a, cli).crawlet.max_depth == spec_with_cli(b, cli).crawlet.max_depth,
{
}

/// A command line that gives no setting leaves every setting as it was.
pub proof fn lemma_with_cli_without_overrides(s: Settings, cli: Cli)
    requires
        cli.timeout_seconds is None,
        cli.max_redirects is None,
        cli.max_depth is None,
        cli.max_concurrent_requests is None,
        cli.same_domain_only is None,
        cli.check_external_links is None,
        cli.ignore_ssl_errors is None,
        cli.retry_attempts is None,
        cli.output_format is None,
        cli.show_successful is None,
    ensures
        spec_with_cli(s, cli) == s,
{
}

} // verus!
