use bakpiarun::types::{upload_path, FileInfo, PhpRequest, RequestLine};

#[test]
fn file_info_default_type() {
    let f = FileInfo::new("a.png".to_string(), None, 3, "/tmp/x".to_string());
    assert_eq!(f.content_type, "application/octet-stream");
    let g = FileInfo::new("a.png".to_string(), Some("image/png".to_string()), 3, "/tmp/x".to_string());
    assert_eq!(g.content_type, "image/png");
    assert_eq!((g.name.as_str(), g.size, g.tmp_path.as_str()), ("a.png", 3, "/tmp/x"));
}

#[test]
fn upload_paths() {
    assert_eq!(upload_path("abc"), "/tmp/bakpiarun_uploads/abc");
}

#[test]
fn request_assembled() {
    let line = RequestLine {
        method: "POST".to_string(),
        uri: "/f?a=1".to_string(),
        query: Some("a=1".to_string()),
        content_type: "text/plain".to_string(),
    };
    let r = PhpRequest::assemble(
        line,
        "/var/www/f.php".to_string(),
        vec![("a".to_string(), "1".to_string())],
        vec![],
        vec![],
        vec![],
        b"h\xffi",
        vec![],
    );
    assert_eq!(r.query_string, "a=1");
    assert_eq!(r.body, "h\u{fffd}i");
    assert_eq!(r.content_length, "3");
    assert_eq!(r.method, "POST");
    assert_eq!(r.file_path, "/var/www/f.php");
    let line2 = RequestLine {
        method: "GET".to_string(),
        uri: "/".to_string(),
        query: None,
        content_type: "".to_string(),
    };
    let r2 = PhpRequest::assemble(line2, "i".to_string(), vec![], vec![], vec![], vec![], b"", vec![]);
    assert_eq!(r2.query_string, "");
    assert_eq!(r2.content_length, "0");
}
