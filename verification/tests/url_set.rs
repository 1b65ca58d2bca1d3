use broken_link_checker::engine::url_set::UrlSet;

#[test]
fn url_set_keeps_each_url_once() {
    let mut s = UrlSet::new();
    assert_eq!(s.len(), 0);
    assert!(s.insert("https://a/".to_string()));
    assert!(s.insert("https://b/".to_string()));
    assert!(!s.insert("https://a/".to_string()));
    assert_eq!(s.len(), 2);
    assert!(s.contains("https://a/"));
    assert!(!s.contains("https://c/"));
}
