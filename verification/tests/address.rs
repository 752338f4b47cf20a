use webshot::address::normalize;

#[test]
fn bare_host_gets_its_root_path() {
    assert_eq!(normalize("https://example.com").unwrap(), "https://example.com/");
}

#[test]
fn canonical_text_is_kept() {
    assert_eq!(
        normalize("https://example.com/a/b?c=d#e").unwrap(),
        "https://example.com/a/b?c=d#e"
    );
}

#[test]
fn scheme_and_host_are_lowercased() {
    assert_eq!(normalize("HTTPS://EXAMPLE.com/Path").unwrap(), "https://example.com/Path");
}

#[test]
fn default_port_is_dropped() {
    assert_eq!(normalize("https://example.com:443/").unwrap(), "https://example.com/");
    assert_eq!(normalize("http://example.com:8080/").unwrap(), "http://example.com:8080/");
}

#[test]
fn spaces_in_the_path_are_escaped() {
    assert_eq!(normalize("http://example.com/a b").unwrap(), "http://example.com/a%20b");
}

#[test]
fn surrounding_spaces_are_ignored() {
    assert_eq!(normalize("  https://example.com  ").unwrap(), "https://example.com/");
}

#[test]
fn equivalent_spellings_share_a_key() {
    let plain = normalize("https://example.com").unwrap();
    let shouted = normalize("HTTPS://Example.COM:443").unwrap();
    assert_eq!(plain, shouted);
}

#[test]
fn plain_words_are_rejected() {
    let error = normalize("not a url").unwrap_err();
    assert_eq!(error.reason, "relative URL without a base");
}

#[test]
fn relative_path_is_rejected() {
    let error = normalize("/just/a/path").unwrap_err();
    assert_eq!(error.reason, "relative URL without a base");
}

#[test]
fn empty_text_is_rejected() {
    let error = normalize("").unwrap_err();
    assert_eq!(error.reason, "relative URL without a base");
}

#[test]
fn missing_host_is_rejected() {
    let error = normalize("https://").unwrap_err();
    assert_eq!(error.reason, "empty host");
}

#[test]
fn bad_port_is_rejected() {
    let error = normalize("https://example.com:99999/").unwrap_err();
    assert_eq!(error.reason, "invalid port number");
}
