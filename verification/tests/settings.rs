use broken_link_checker::adapters::Cli;
use broken_link_checker::settings::{OutputFormat, Settings};

fn empty_cli() -> Cli {
    Cli {
        url: None,
        file: None,
        timeout_seconds: None,
        max_redirects: None,
        max_depth: None,
        max_concurrent_requests: None,
        same_domain_only: None,
        check_external_links: None,
        ignore_ssl_errors: None,
        retry_attempts: None,
        output_format: None,
        show_successful: None,
    }
}

#[test]
fn test_output_format_from_str() {
    assert_eq!(OutputFormat::from("pretty"), OutputFormat::Pretty);
    assert_eq!(OutputFormat::from("json"), OutputFormat::Json);
    assert_eq!(OutputFormat::from("unknown"), OutputFormat::Pretty);
}

#[test]
fn test_settings_default() {
    let settings = Settings::default();
    assert_eq!(settings.http.timeout_seconds, 30);
    assert_eq!(settings.http.max_redirects, 5);
    assert_eq!(settings.crawlet.max_depth, 3);
    assert_eq!(settings.crawlet.max_concurrent_requests, 10);
    assert!(settings.crawlet.same_domain_only);
    assert!(settings.checker.check_external_links);
    assert!(settings.checker.ignore_ssl_errors);
    assert_eq!(settings.checker.retry_attempts, 3);
    assert_eq!(settings.output.output_format, OutputFormat::Pretty);
    assert!(!settings.output.show_successful);
}

#[test]
fn test_output_format_case_insensitive() {
    assert_eq!(OutputFormat::from("PRETTY"), OutputFormat::Pretty);
    assert_eq!(OutputFormat::from("JSON"), OutputFormat::Json);
}

#[test]
fn test_settings_with_cli_overrides() {
    let base = Settings::default();
    let cli = Cli {
        url: Some("https://example.com/".to_string()),
        file: None,
        timeout_seconds: Some(60),
        max_redirects: Some(10),
        max_depth: Some(5),
        max_concurrent_requests: Some(20),
        same_domain_only: Some(false),
        check_external_links: Some(false),
        ignore_ssl_errors: Some(false),
        retry_attempts: Some(5),
        output_format: Some("json".to_string()),
        show_successful: Some(true),
    };
    let settings = base.with_cli(&cli);

    assert_eq!(settings.http.timeout_seconds, 60);
    assert_eq!(settings.http.max_redirects, 10);
    assert_eq!(settings.crawlet.max_depth, 5);
    assert_eq!(settings.crawlet.max_concurrent_requests, 20);
    assert!(!settings.crawlet.same_domain_only);
    assert!(!settings.checker.check_external_links);
    assert!(!settings.checker.ignore_ssl_errors);
    assert_eq!(settings.checker.retry_attempts, 5);
    assert_eq!(settings.output.output_format, OutputFormat::Json);
    assert!(settings.output.show_successful);
}

#[test]
fn with_cli_without_overrides_keeps_settings() {
    let settings = Settings::default().with_cli(&empty_cli());
    assert_eq!(settings.http.timeout_seconds, 30);
    assert_eq!(settings.http.max_redirects, 5);
    assert_eq!(settings.crawlet.max_depth, 3);
    assert_eq!(settings.crawlet.max_concurrent_requests, 10);
    assert!(settings.crawlet.same_domain_only);
    assert!(settings.checker.check_external_links);
    assert!(settings.checker.ignore_ssl_errors);
    assert_eq!(settings.checker.retry_attempts, 3);
    assert_eq!(settings.output.output_format, OutputFormat::Pretty);
    assert!(!settings.output.show_successful);
}

#[test]
fn with_cli_twice_is_with_cli_once() {
    let mut cli = empty_cli();
    cli.max_depth = Some(7);
    cli.output_format = Some("Json".to_string());
    let once = Settings::default().with_cli(&cli);
    let twice = Settings::default().with_cli(&cli).with_cli(&cli);
    assert_eq!(once.crawlet.max_depth, 7);
    assert_eq!(twice.crawlet.max_depth, 7);
    assert_eq!(once.output.output_format, OutputFormat::Json);
    assert_eq!(twice.output.output_format, OutputFormat::Json);
    assert_eq!(once.http.timeout_seconds, twice.http.timeout_seconds);
}

#[test]
fn with_cli_truncates_wide_counts() {
    let mut cli = empty_cli();
    cli.max_depth = Some((1usize << 32) + 4);
    cli.max_concurrent_requests = Some(usize::MAX);
    let settings = Settings::default().with_cli(&cli);
    assert_eq!(settings.crawlet.max_depth, 4);
    assert_eq!(settings.crawlet.max_concurrent_requests, u32::MAX);
}

#[test]
fn output_format_from_lowercase_is_exact() {
    assert_eq!(OutputFormat::from_lowercase("json"), OutputFormat::Json);
    assert_eq!(OutputFormat::from_lowercase("JSON"), OutputFormat::Pretty);
    assert_eq!(OutputFormat::from_lowercase("pretty"), OutputFormat::Pretty);
    assert_eq!(OutputFormat::from_lowercase(""), OutputFormat::Pretty);
    assert_eq!(OutputFormat::default(), OutputFormat::Pretty);
}

#[test]
fn output_format_mixed_case() {
    assert_eq!(OutputFormat::from("JsOn"), OutputFormat::Json);
    assert_eq!(OutputFormat::from(" json"), OutputFormat::Pretty);
}
