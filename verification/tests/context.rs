use broken_link_checker::context::AppContext;
use broken_link_checker::settings::Settings;

#[test]
fn test_app_context_parser() {
    let settings = Settings::default();
    let context = AppContext::new(settings);
    assert_eq!(
        context
            .parser
            .parse_links("<a href=\"https://example.com\">Example</a>")
            .unwrap(),
        vec!["https://example.com".to_string()]
    );
}

#[test]
fn app_context_http_client_from_settings() {
    let mut settings = Settings::default();
    settings.http.timeout_seconds = 12;
    settings.http.max_redirects = 2;
    settings.checker.ignore_ssl_errors = false;
    let context = AppContext::new(settings);
    assert_eq!(context.http_client.timeout_seconds, 12);
    assert_eq!(context.http_client.max_redirects, 2);
    assert!(!context.http_client.ignore_ssl);
    assert_eq!(context.settings.crawlet.max_depth, 3);
}
