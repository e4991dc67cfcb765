use gamechat::client::{homeserver_name, local_part_of, normalize_username};

#[test]
fn homeserver_name_strips_scheme_and_slashes() {
    assert_eq!(homeserver_name("https://matrix.org"), "matrix.org");
    assert_eq!(homeserver_name("http://example.com/"), "example.com");
    assert_eq!(homeserver_name("https://matrix.org///"), "matrix.org");
    assert_eq!(homeserver_name("matrix.org"), "matrix.org");
    assert_eq!(homeserver_name("not-a-url"), "not-a-url");
}

#[test]
fn homeserver_name_strips_repeated_schemes() {
    assert_eq!(homeserver_name("https://https://a.b"), "a.b");
    assert_eq!(homeserver_name("https://http://a.b/"), "a.b");
    assert_eq!(homeserver_name("http://https://a.b"), "https://a.b");
    assert_eq!(homeserver_name(""), "");
    assert_eq!(homeserver_name("///"), "");
}

#[test]
fn local_part_drops_at_and_server() {
    assert_eq!(local_part_of("@alice:matrix.org"), "alice");
    assert_eq!(local_part_of("bob"), "bob");
    assert_eq!(local_part_of("@@carol"), "@carol");
    assert_eq!(local_part_of(":x"), "");
    assert_eq!(local_part_of(""), "");
}

#[test]
fn normalize_username_trims_and_lowercases() {
    assert_eq!(normalize_username("  @Alice:Matrix.org "), "alice");
    assert_eq!(normalize_username("Bob"), "bob");
    assert_eq!(normalize_username("\tÉLODIE\n"), "élodie");
}
