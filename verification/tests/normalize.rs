use player_metrics::normalize_address;
use player_metrics::server_endpoint;
use player_metrics::ServerEntry;

#[test]
fn fake_scheme_default_port_and_status_path() {
    let e = normalize_address("fake://host.example/path/").unwrap();
    assert_eq!(e.url_string(), "http://host.example:1212/path/status");
}

#[test]
fn plain_host_gets_port_and_status() {
    let e = normalize_address("ss14://play.example.org").unwrap();
    assert_eq!(e.scheme, "http");
    assert_eq!(e.host, "play.example.org");
    assert_eq!(e.port, Some(1212));
    assert_eq!(e.path, "/status");
    assert_eq!(e.url_string(), "http://play.example.org:1212/status");
}

#[test]
fn explicit_port_is_kept() {
    let e = normalize_address("fake://host.example:4444/").unwrap();
    assert_eq!(e.port, Some(4444));
    assert_eq!(e.url_string(), "http://host.example:4444/status");
}

#[test]
fn secure_scheme_keeps_no_default_port() {
    // The four replaced characters leave the trailing "s" of the original
    // scheme in place, so the result is the secure variant and the plain-HTTP
    // default port does not apply.
    let e = normalize_address("fakes://host.example/").unwrap();
    assert_eq!(e.scheme, "https");
    assert_eq!(e.port, None);
    assert_eq!(e.url_string(), "https://host.example/status");
}

#[test]
fn many_trailing_slashes_are_stripped() {
    let e = normalize_address("fake://host.example/a/b///").unwrap();
    assert_eq!(e.url_string(), "http://host.example:1212/a/b/status");
}

#[test]
fn address_shorter_than_scheme_token_is_unusable() {
    assert!(normalize_address("ab").is_none());
    assert!(normalize_address("").is_none());
}

#[test]
fn unparsable_rewritten_address_is_unusable() {
    // After the rewrite this is "http:" with nothing behind it: no host.
    assert!(normalize_address("fake:").is_none());
}

#[test]
fn hostless_url_is_unusable() {
    // "mailto:user@example.com" rewrites to "httpto:user@example.com",
    // which parses without a host.
    assert!(normalize_address("mailto:user@example.com").is_none());
}

#[test]
fn parser_normalizes_host_case() {
    // The URL parser, not this crate, lowercases the host: the wrapper
    // around it must really parse, not echo its input.
    let e = normalize_address("fake://HOST.Example/").unwrap();
    assert_eq!(e.host, "host.example");
}

#[test]
fn default_http_port_counts_as_absent() {
    // The parser drops an explicit :80 on a plain-HTTP URL as the scheme's
    // known default, so the query default 1212 takes its place.
    let e = normalize_address("fake://host.example:80/").unwrap();
    assert_eq!(e.port, Some(1212));
}

#[test]
fn entry_endpoint_uses_the_address() {
    let entry = ServerEntry {
        address: String::from("fake://host.example/path/"),
        name: String::from("A Friendly Server"),
    };
    let e = server_endpoint(&entry).unwrap();
    assert_eq!(e.url_string(), "http://host.example:1212/path/status");
}

#[test]
fn query_and_fragment_are_dropped_from_the_path() {
    // The parsed path excludes the query; polling goes to the status path.
    let e = normalize_address("fake://host.example/play?mode=hard").unwrap();
    assert_eq!(e.url_string(), "http://host.example:1212/play/status");
}
