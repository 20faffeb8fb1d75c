use bakpiarun::static_file::{
    etag, extension_of, get_mime_type, is_safe_subpath, is_static_file, path_within,
    php_file_candidates, request_subpath, static_candidate, static_file_headers,
    static_file_headers_at, php_file_choice, resolve_candidate, static_outcome, CandidateFacts,
    StaticOutcome,
};

#[test]
fn rejects_parent_dir_traversal() {
    assert!(!is_safe_subpath("../etc/passwd"));
    assert!(!is_safe_subpath("a/../../etc/passwd"));
    assert!(!is_safe_subpath("../../../../etc/passwd"));
    assert!(!is_safe_subpath(".."));
}

#[test]
fn rejects_absolute_paths() {
    assert!(!is_safe_subpath("/etc/passwd"));
}

#[test]
fn allows_normal_paths() {
    assert!(is_safe_subpath(""));
    assert!(is_safe_subpath("index.php"));
    assert!(is_safe_subpath("admin/index.php"));
    assert!(is_safe_subpath("css/style.css"));
    assert!(is_safe_subpath("my..weird..name.php"));
}

#[test]
fn encoded_traversal_is_not_a_parent_component() {
    assert!(is_safe_subpath("%2e%2e/%2e%2e/etc/passwd"));
}

#[test]
fn mime_types_by_extension() {
    assert_eq!(get_mime_type("html"), "text/html; charset=utf-8");
    assert_eq!(get_mime_type("CSS"), "text/css; charset=utf-8");
    assert_eq!(get_mime_type("Js"), "application/javascript; charset=utf-8");
    assert_eq!(get_mime_type("png"), "image/png");
    assert_eq!(get_mime_type("woff2"), "font/woff2");
    assert_eq!(get_mime_type("map"), "application/json");
    assert_eq!(get_mime_type("php"), "application/octet-stream");
    assert_eq!(get_mime_type(""), "application/octet-stream");
}

#[test]
fn static_files_by_extension() {
    assert!(is_static_file("/css/style.css"));
    assert!(is_static_file("/img/LOGO.PNG"));
    assert!(is_static_file("/index.html"));
    assert!(!is_static_file("/index.php"));
    assert!(!is_static_file("/users"));
    assert!(!is_static_file("/.css"));
    assert!(is_static_file("/archive.tar.gz"));
}

#[test]
fn path_extensions() {
    assert_eq!(extension_of("/a/b.txt"), "txt");
    assert_eq!(extension_of("/a/b.tar.gz"), "gz");
    assert_eq!(extension_of("/a/.hidden"), "");
    assert_eq!(extension_of("/a/b"), "");
    assert_eq!(extension_of("/a/b.css/"), "css");
    assert_eq!(extension_of("/a/.."), "");
}

#[test]
fn request_subpaths() {
    assert_eq!(request_subpath("///css/a.css"), Some("css/a.css".to_string()));
    assert_eq!(request_subpath("/"), Some("".to_string()));
    assert_eq!(request_subpath("/../etc/passwd"), None);
}

#[test]
fn etag_text() {
    assert_eq!(etag(1234, 56), "\"1234-56\"");
    assert_eq!(etag(0, -3), "\"0--3\"");
    assert_eq!(etag(7, 1445412480), etag(7, 1445412480));
}

#[test]
fn php_candidates_in_order() {
    let c = php_file_candidates("/var/www", "/users").unwrap();
    assert_eq!(c, vec![
        "/var/www/users".to_string(),
        "/var/www/users.php".to_string(),
        "/var/www/users/index.php".to_string(),
    ]);
    assert_eq!(php_file_candidates("/var/www", "/../secret"), None);
}

#[test]
fn static_candidate_joins_docroot() {
    assert_eq!(static_candidate("/srv", "/css/a.css"), Some("/srv/css/a.css".to_string()));
    assert_eq!(static_candidate("/srv", "/a/../../b.css"), None);
}

#[test]
fn static_headers_in_order() {
    let h = static_file_headers("image/png", "\"1-2\"", Some("Wed, 21 Oct 2015 07:28:00 GMT"));
    assert_eq!(h, vec![
        ("content-type".to_string(), "image/png".to_string()),
        ("cache-control".to_string(), "public, max-age=31536000".to_string()),
        ("etag".to_string(), "\"1-2\"".to_string()),
        ("last-modified".to_string(), "Wed, 21 Oct 2015 07:28:00 GMT".to_string()),
    ]);
}

#[test]
fn paths_within_a_root() {
    assert!(path_within(b"/var/www/index.php", b"/var/www"));
    assert!(!path_within(b"/var/www2/x", b"/var/www"));
    assert!(path_within(b"/var/www", b"/var/www/"));
    assert!(path_within(b"/var//www/./a", b"/var/www"));
    assert!(!path_within(b"var/www", b"/var"));
    assert!(path_within(b"./a", b"."));
    assert!(!path_within(b"a", b"."));
    assert!(path_within(b"/", b"/"));
    assert!(path_within(b"/a", b"/"));
    assert!(!path_within(b"/", b"/a"));
    assert!(path_within(b"/srv/x/../etc", b"/srv/x"));
    assert!(path_within(b"/srv/\xff/a", b"/srv/\xff"));
    assert!(!path_within(b"/srv/\xfe/a", b"/srv/\xff"));
}

#[test]
fn static_headers_with_modification_time() {
    let h = static_file_headers_at("text/css; charset=utf-8", 3, 1445412480);
    assert_eq!(h[2], ("etag".to_string(), "\"3-1445412480\"".to_string()));
    assert_eq!(h[3], ("last-modified".to_string(), "Wed, 21 Oct 2015 07:28:00 GMT".to_string()));
    assert_eq!(h, static_file_headers_at("text/css; charset=utf-8", 3, 1445412480));
    let e = static_file_headers_at("a/b", 0, 0);
    assert_eq!(e[2].1, "\"0-0\"");
    assert_eq!(e[3].1, "Thu, 01 Jan 1970 00:00:00 GMT");
    let none = static_file_headers("a/b", "t", None);
    assert_eq!(none.len(), 3);
    assert_eq!(static_file_headers_at("a/b", 1, i64::MAX).len(), 3);
}

#[test]
fn mime_lookup_ignores_case() {
    assert_eq!(get_mime_type("PNG"), "image/png");
    assert_eq!(get_mime_type("JS"), "application/javascript; charset=utf-8");
    for ext in ["css", "WebP", "gz", "MaP", "unknown", ""] {
        assert_eq!(get_mime_type(ext), get_mime_type(&ext.to_lowercase()));
        assert_eq!(get_mime_type(ext), get_mime_type(&ext.to_uppercase()));
    }
    assert!(!is_static_file("/admin"));
    assert!(!is_static_file("/"));
    assert!(!is_static_file(""));
}

#[test]
fn php_candidates_for_plain_names() {
    let c = php_file_candidates("docroot", "/admin/x").unwrap();
    assert_eq!(c[1], "docroot/admin/x.php");
    let d = php_file_candidates("docroot", "/").unwrap();
    assert_eq!(d[0], "docroot/");
    assert_eq!(d[1], "docroot.php");
    let e = php_file_candidates("docroot", "/page.html").unwrap();
    assert_eq!(e[1], "docroot/page.php");
}

fn facts(is_file: bool, canonical: Option<&str>, root: Option<&str>) -> CandidateFacts {
    CandidateFacts {
        is_file,
        canonical: canonical.map(|c| c.as_bytes().to_vec()),
        canonical_root: root.map(|r| r.as_bytes().to_vec()),
    }
}

#[test]
fn candidates_resolve_inside_the_root_only() {
    assert_eq!(resolve_candidate(&facts(true, Some("/srv/www/a.css"), Some("/srv/www"))), Some(b"/srv/www/a.css".to_vec()));
    assert_eq!(resolve_candidate(&facts(true, Some("/etc/passwd"), Some("/srv/www"))), None);
    assert_eq!(resolve_candidate(&facts(true, Some("/srv/www2/a"), Some("/srv/www"))), None);
    assert_eq!(resolve_candidate(&facts(false, Some("/srv/www/a"), Some("/srv/www"))), None);
    assert_eq!(resolve_candidate(&facts(true, None, Some("/srv/www"))), None);
    assert_eq!(resolve_candidate(&facts(true, Some("/srv/www/a"), None)), None);
}

#[test]
fn php_choice_takes_the_first_resolved_candidate() {
    let none = facts(false, None, None);
    let users = facts(true, Some("/srv/www/users.php"), Some("/srv/www"));
    let index = facts(true, Some("/srv/www/users/index.php"), Some("/srv/www"));
    assert_eq!(
        php_file_choice("/srv/www", "/users", &[none, users, index]),
        Some(b"/srv/www/users.php".to_vec())
    );
    let none = facts(false, None, None);
    let outside = facts(true, Some("/etc/x.php"), Some("/srv/www"));
    let index = facts(true, Some("/srv/www/admin/index.php"), Some("/srv/www"));
    assert_eq!(
        php_file_choice("/srv/www", "/admin", &[none, outside, index]),
        Some(b"/srv/www/admin/index.php".to_vec())
    );
    let exact = facts(true, Some("/srv/www/x.php"), Some("/srv/www"));
    assert_eq!(php_file_choice("/srv/www", "/../x.php", &[exact]), None);
    assert_eq!(php_file_choice("/srv/www", "/missing", &[]), None);
}

#[test]
fn static_outcomes() {
    let f = facts(true, Some("/srv/www/a.css"), Some("/srv/www"));
    assert!(matches!(static_outcome("/srv/www", "/../a.css", &f), StaticOutcome::Forbidden));
    match static_outcome("/srv/www", "/a.css", &f) {
        StaticOutcome::Serve(p) => assert_eq!(p, b"/srv/www/a.css".to_vec()),
        _ => panic!("expected the file to be served"),
    }
    let link_out = facts(true, Some("/etc/passwd"), Some("/srv/www"));
    assert!(matches!(static_outcome("/srv/www", "/a.css", &link_out), StaticOutcome::NotFound));
    let dir = facts(false, None, None);
    assert!(matches!(static_outcome("/srv/www", "/css", &dir), StaticOutcome::NotFound));
}
