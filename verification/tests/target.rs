use reverse_proxy::error::ProxyError;
use reverse_proxy::target::strip_api_prefix;
use reverse_proxy::target::ProxyConfig;
use reverse_proxy::target::PIECE_LIMIT;

fn config(base: &str) -> ProxyConfig {
    match ProxyConfig::new(base) {
        Ok(made) => made,
        Err(error) => panic!("{} is refused: {:?}", base, error),
    }
}

#[test]
fn strip_takes_the_prefix_off() {
    assert_eq!(strip_api_prefix("/api/books"), "/books");
}

#[test]
fn strip_takes_the_prefix_off_once() {
    assert_eq!(strip_api_prefix("/api/api/books"), "/api/books");
    assert_eq!(strip_api_prefix("/api/api"), "/api");
    assert_eq!(strip_api_prefix("/api/api/api"), "/api/api");
}

#[test]
fn strip_of_the_bare_prefix_is_empty() {
    assert_eq!(strip_api_prefix("/api"), "");
}

#[test]
fn strip_asks_for_no_segment_boundary() {
    assert_eq!(strip_api_prefix("/apifoo"), "foo");
    assert_eq!(strip_api_prefix("/api.json"), ".json");
}

#[test]
fn strip_leaves_other_paths() {
    assert_eq!(strip_api_prefix("/other/api"), "/other/api");
    assert_eq!(strip_api_prefix("/ap"), "/ap");
    assert_eq!(strip_api_prefix("/"), "/");
    assert_eq!(strip_api_prefix(""), "");
    assert_eq!(strip_api_prefix("api/x"), "api/x");
}

#[test]
fn strip_is_exact_about_case() {
    assert_eq!(strip_api_prefix("/API/x"), "/API/x");
    assert_eq!(strip_api_prefix("/Api/x"), "/Api/x");
}

#[test]
fn strip_keeps_what_follows_letter_for_letter() {
    assert_eq!(strip_api_prefix("/api/caf\u{e9}/\u{4e66}"), "/caf\u{e9}/\u{4e66}");
    assert_eq!(strip_api_prefix("/\u{e9}api"), "/\u{e9}api");
}

#[test]
fn new_reads_an_absolute_url() {
    assert_eq!(config("https://app.hbooker.com").base(), "https://app.hbooker.com/");
    assert_eq!(config("http://127.0.0.1:9000").base(), "http://127.0.0.1:9000/");
}

#[test]
fn new_refuses_what_is_no_absolute_url() {
    assert_eq!(ProxyConfig::new("").err(), Some(ProxyError::ConfigInvalid));
    assert_eq!(ProxyConfig::new("not a url").err(), Some(ProxyError::ConfigInvalid));
    assert_eq!(ProxyConfig::new("/relative/path").err(), Some(ProxyError::ConfigInvalid));
    assert_eq!(ProxyConfig::new("//app.hbooker.com").err(), Some(ProxyError::ConfigInvalid));
    assert_eq!(ProxyConfig::new("https://").err(), Some(ProxyError::ConfigInvalid));
}

#[test]
fn target_of_a_doubled_prefix() {
    let shared = config("https://app.hbooker.com");
    assert_eq!(
        shared.target("/api/api/books", Some("id=5")),
        Some("https://app.hbooker.com/api/books?id=5".to_string())
    );
}

#[test]
fn target_without_a_query_has_none() {
    let shared = config("https://app.hbooker.com");
    assert_eq!(shared.target("/api/x", None), Some("https://app.hbooker.com/x".to_string()));
}

#[test]
fn target_with_an_empty_query_keeps_the_mark() {
    let shared = config("https://app.hbooker.com");
    assert_eq!(shared.target("/api/x", Some("")), Some("https://app.hbooker.com/x?".to_string()));
}

#[test]
fn target_hands_the_query_on_as_it_came() {
    let shared = config("https://app.hbooker.com");
    assert_eq!(
        shared.target("/api/search", Some("q=a%20b&page=2&empty=")),
        Some("https://app.hbooker.com/search?q=a%20b&page=2&empty=".to_string())
    );
}

#[test]
fn target_of_the_bare_prefix_is_the_root() {
    let shared = config("https://app.hbooker.com");
    assert_eq!(shared.target("/api", None), Some("https://app.hbooker.com/".to_string()));
}

#[test]
fn target_of_a_partial_segment() {
    let shared = config("https://app.hbooker.com");
    assert_eq!(shared.target("/apifoo", None), Some("https://app.hbooker.com/foo".to_string()));
}

#[test]
fn target_replaces_the_path_and_query_of_the_base() {
    let shared = config("https://app.hbooker.com/old/path?old=1");
    assert_eq!(
        shared.target("/api/new", Some("fresh=2")),
        Some("https://app.hbooker.com/new?fresh=2".to_string())
    );
    assert_eq!(shared.target("/api/new", None), Some("https://app.hbooker.com/new".to_string()));
}

#[test]
fn target_keeps_the_port_of_the_base() {
    let shared = config("http://127.0.0.1:9000");
    assert_eq!(
        shared.target("/api/echo", None),
        Some("http://127.0.0.1:9000/echo".to_string())
    );
}

#[test]
fn target_leaves_the_shared_base_as_it_was() {
    let shared = config("https://app.hbooker.com");
    let first = shared.target("/api/a", Some("x=1"));
    let second = shared.target("/api/b", None);
    assert_eq!(first, Some("https://app.hbooker.com/a?x=1".to_string()));
    assert_eq!(second, Some("https://app.hbooker.com/b".to_string()));
    assert_eq!(shared.base(), "https://app.hbooker.com/");
}

#[test]
fn target_is_the_same_each_time() {
    let shared = config("https://app.hbooker.com");
    assert_eq!(shared.target("/api/x", Some("a=b")), shared.target("/api/x", Some("a=b")));
}

#[test]
fn target_beyond_the_limit_is_none() {
    let shared = config("https://app.hbooker.com");
    let mut path = String::from("/api/");
    path.push_str(&"a".repeat(PIECE_LIMIT));
    assert_eq!(shared.target(&path, None), None);
}

#[test]
fn target_with_a_query_beyond_the_limit_is_none() {
    let shared = config("https://app.hbooker.com");
    let query = "q".repeat(PIECE_LIMIT + 1);
    assert_eq!(shared.target("/api/x", Some(&query)), None);
}

#[test]
fn target_resolves_dot_segments() {
    let shared = config("https://app.hbooker.com");
    assert_eq!(shared.target("/api/a/../b", None), Some("https://app.hbooker.com/b".to_string()));
    assert_eq!(shared.target("/apix/../y", None), Some("https://app.hbooker.com/y".to_string()));
}

#[test]
fn target_escapes_what_a_path_cannot_hold() {
    let shared = config("https://app.hbooker.com");
    assert_eq!(
        shared.target("/api/a b", None),
        Some("https://app.hbooker.com/a%20b".to_string())
    );
    assert_eq!(
        shared.target("/api/x?y#z", None),
        Some("https://app.hbooker.com/x%3Fy%23z".to_string())
    );
    assert_eq!(
        shared.target("/api/caf\u{e9}", Some("n=\u{e9}")),
        Some("https://app.hbooker.com/caf%C3%A9?n=%C3%A9".to_string())
    );
}

#[test]
fn target_keeps_escapes_that_came() {
    let shared = config("https://app.hbooker.com");
    assert_eq!(
        shared.target("/api/%41%zz", None),
        Some("https://app.hbooker.com/%41%zz".to_string())
    );
}

#[test]
fn target_escapes_what_a_query_cannot_hold() {
    let shared = config("https://app.hbooker.com");
    assert_eq!(
        shared.target("/api/x", Some("a b#c")),
        Some("https://app.hbooker.com/x?a%20b%23c".to_string())
    );
}

#[test]
fn target_of_an_empty_path_is_the_root() {
    let shared = config("https://app.hbooker.com");
    assert_eq!(shared.target("", None), Some("https://app.hbooker.com/".to_string()));
    assert_eq!(shared.target("/api", Some("q")), Some("https://app.hbooker.com/?q".to_string()));
}

#[test]
fn target_keeps_the_fragment_of_the_base() {
    let shared = config("https://app.hbooker.com/a?b=c#top");
    assert_eq!(
        shared.target("/api/x", Some("q")),
        Some("https://app.hbooker.com/x?q#top".to_string())
    );
    assert_eq!(shared.target("/api/x", None), Some("https://app.hbooker.com/x#top".to_string()));
}

#[test]
fn target_on_a_base_without_host() {
    let shared = config("mailto:user@example.com");
    assert_eq!(shared.target("/api/x", Some("q")), Some("mailto:%2Fx?q".to_string()));
}

#[test]
fn target_goes_by_the_url_and_not_by_its_text() {
    // Both bases come to the text "mailto:+#y" once the path is written, one
    // with the mark inside its path and one with a fragment after it.
    let plain = config("mailto:x");
    let marked = config("mailto:x#y");
    assert_eq!(plain.target("+#y", None), Some("mailto:+#y".to_string()));
    assert_eq!(marked.target("+", None), Some("mailto:+#y".to_string()));
    assert_eq!(plain.target("+#y", Some("q")), Some("mailto:+#y?q".to_string()));
    assert_eq!(marked.target("+", Some("q")), Some("mailto:+?q#y".to_string()));
}
