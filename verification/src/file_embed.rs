//! The file-based embedded server: the script text it reads, the
//! `$_SERVER` set-up put before it, and the page it answers with.
//! (Reading the file and running the Zend engine stay with the server.)

use vstd::prelude::*;
use crate::text::{
    chars_of, ends_with, matches_at, occurs_at, push_char, push_str, starts_with, string_of_range,
    trim, trim_bounds,
};

verus! {

/// A request handed to the PHP thread.
pub struct PhpRequest {
    pub uri: String,
    pub method: String,
    pub file_path: String,
}

/// The PHP thread's answer.
pub struct PhpResponse {
    pub status: u16,
    pub body: String,
}

/// The request for a method and URI: every request runs `index.php`.
pub fn request_for(method: String, uri: String) -> (r: PhpRequest)
    ensures
        r.method == method,
        r.uri == uri,
        r.file_path@ == "index.php"@,
{
    PhpRequest { uri, method, file_path: "index.php".to_string() }
}

/// A script's code without its PHP tags: a leading `<?php` (else a
/// leading `<?`) and a trailing `?>` are dropped, then surrounding
/// whitespace.
pub open spec fn stripped_code(s: Seq<char>) -> Seq<char> {
    let a = if starts_with(s, "<?php"@) {
        s.skip(5)
    } else if starts_with(s, "<?"@) {
        s.skip(2)
    } else {
        s
    };
    let b = if ends_with(a, "?>"@) {
        a.take(a.len() - 2)
    } else {
        a
    };
    trim(b)
}

/// Strips the PHP tags off a script (see `stripped_code`).
pub fn strip_php_tags(code: &str) -> (r: String)
    ensures
        r@ == stripped_code(code@),
{
    let v = chars_of(code);
    let open_long = chars_of("<?php");
    let open_short = chars_of("<?");
    let close = chars_of("?>");
    proof {
        reveal_strlit("<?php");
        reveal_strlit("<?");
        reveal_strlit("?>");
    }
    let n = v.len();
    let lo: usize = if matches_at(&v, &open_long, 0) {
        5
    } else if matches_at(&v, &open_short, 0) {
        2
    } else {
        0
    };
    let ghost a = v@.skip(lo as int);
    proof {
        assert(starts_with(v@, "<?php"@) == occurs_at(v@, open_long@, 0));
        assert(starts_with(v@, "<?"@) == occurs_at(v@, open_short@, 0));
        assert(a == (if starts_with(v@, "<?php"@) { v@.skip(5) } else if starts_with(v@, "<?"@) { v@.skip(2) } else { v@ }));
    }
    let hi: usize = if n - lo >= 2 && matches_at(&v, &close, n - 2) {
        n - 2
    } else {
        n
    };
    proof {
        assert(ends_with(a, "?>"@) == (n - lo >= 2 && occurs_at(v@, close@, n - 2))) by {
            if n - lo >= 2 {
                assert(a.subrange(a.len() - 2, a.len() as int) =~= v@.subrange(n - 2, n as int));
            }
        }
        if ends_with(a, "?>"@) {
            assert(a.take(a.len() - 2) =~= v@.subrange(lo as int, hi as int));
        } else {
            assert(a =~= v@.subrange(lo as int, hi as int));
        }
    }
    let mid = string_of_range(&v, lo, hi);
    let m = chars_of(mid.as_str());
    let (tlo, thi) = trim_bounds(&m);
    string_of_range(&m, tlo, thi)
}

/// The message of a file that cannot be read, from the error's text.
pub fn file_not_found_message(error: &str) -> (r: String)
    ensures
        r@ == "File not found: "@ + error@,
{
    let mut s = String::new();
    push_str(&mut s, "File not found: ");
    push_str(&mut s, error);
    s
}

/// The 404 answer when the script cannot be read.
pub fn not_found_response(message: &str) -> (r: PhpResponse)
    ensures
        r.status == 404,
        r.body@ == "<h1>404 - File Not Found</h1><p>"@ + message@ + "</p>"@,
{
    let mut s = String::new();
    push_str(&mut s, "<h1>404 - File Not Found</h1><p>");
    push_str(&mut s, message);
    push_str(&mut s, "</p>");
    PhpResponse { status: 404, body: s }
}

/// The PHP code that fills `$_SERVER` before the script runs.
pub open spec fn server_setup_text(method: Seq<char>, uri: Seq<char>) -> Seq<char> {
    "\n                $_SERVER['REQUEST_METHOD'] = '"@ + method + "';\n                $_SERVER['REQUEST_URI'] = '"@ + uri + "';\n                $_SERVER['SERVER_NAME'] = 'localhost';\n                $_SERVER['SERVER_PORT'] = '8080';\n                $_SERVER['SERVER_PROTOCOL'] = 'HTTP/1.1';\n                $_SERVER['HTTP_HOST'] = 'localhost:8080';\n                $_SERVER['SCRIPT_NAME'] = '/index.php';\n                $_SERVER['PHP_SELF'] = '/index.php';\n                "@
}

/// The code run for a request: the `$_SERVER` set-up, a line break, then
/// the script's code.
pub fn script_source(req: &PhpRequest, php_code: &str) -> (r: String)
    ensures
        r@ == server_setup_text(req.method@, req.uri@) + seq!['\n'] + php_code@,
{
    let mut s = String::new();
    push_str(&mut s, "\n                $_SERVER['REQUEST_METHOD'] = '");
    push_str(&mut s, req.method.as_str());
    push_str(&mut s, "';\n                $_SERVER['REQUEST_URI'] = '");
    push_str(&mut s, req.uri.as_str());
    push_str(&mut s, "';\n                $_SERVER['SERVER_NAME'] = 'localhost';\n                $_SERVER['SERVER_PORT'] = '8080';\n                $_SERVER['SERVER_PROTOCOL'] = 'HTTP/1.1';\n                $_SERVER['HTTP_HOST'] = 'localhost:8080';\n                $_SERVER['SCRIPT_NAME'] = '/index.php';\n                $_SERVER['PHP_SELF'] = '/index.php';\n                ");
    push_char(&mut s, '\n');
    push_str(&mut s, php_code);
    s
}

/// The page answered after the script ran: whether it succeeded, the
/// method, the URI and the file.
pub open spec fn result_page_text(ok: bool, method: Seq<char>, uri: Seq<char>, file: Seq<char>) -> Seq<char> {
    "<!DOCTYPE html>\n<html>\n<head>\n    <title>bakpiaRun - File-based PHP</title>\n    <style>\n        body { font-family: Arial, sans-serif; margin: 40px; background: #f5f5f5; }\n        .container { background: white; padding: 30px; border-radius: 8px; max-width: 800px; margin: 0 auto; box-shadow: 0 2px 4px rgba(0,0,0,0.1); }\n        h1 { color: #333; border-bottom: 2px solid #667eea; padding-bottom: 10px; }\n        .info { margin: 15px 0; padding: 10px; background: #e9ecef; border-radius: 4px; border-left: 4px solid #667eea; }\n        .success { color: #27ae60; font-weight: bold; }\n        .error { color: #e74c3c; font-weight: bold; }\n        .note { margin-top: 20px; padding: 15px; background: #fff3cd; border-left: 4px solid #ffc107; font-style: italic; }\n    </style>\n</head>\n<body>\n    <div class=\"container\">\n        <h1>bakpiaRun Web Server</h1>\n        <p class=\""@ + (if ok { "success"@ } else { "error"@ }) + "\">PHP Execution: "@ + (if ok { "Success"@ } else { "Failed"@ })
        + "</p>\n        <div class=\"info\"><strong>Method:</strong> "@ + method + "</div>\n        <div class=\"info\"><strong>URI:</strong> "@ + uri + "</div>\n        <div class=\"info\"><strong>File:</strong> "@ + file + "</div>\n        <div class=\"note\">\n            <strong>Note:</strong> Output dari PHP (echo/print) ditampilkan di terminal server. \n            Halaman ini di-generate oleh Rust.\n        </div>\n    </div>\n</body>\n</html>"@
}

/// The answer for the engine's result code: 200 on success (0), else
/// 500, with the result page either way.
pub fn result_response(result: i32, req: &PhpRequest) -> (r: PhpResponse)
    ensures
        r.status == (if result == 0 { 200u16 } else { 500u16 }),
        r.body@ == result_page_text(result == 0, req.method@, req.uri@, req.file_path@),
{
    let ok = result == 0;
    let mut s = String::new();
    push_str(&mut s, "<!DOCTYPE html>\n<html>\n<head>\n    <title>bakpiaRun - File-based PHP</title>\n    <style>\n        body { font-family: Arial, sans-serif; margin: 40px; background: #f5f5f5; }\n        .container { background: white; padding: 30px; border-radius: 8px; max-width: 800px; margin: 0 auto; box-shadow: 0 2px 4px rgba(0,0,0,0.1); }\n        h1 { color: #333; border-bottom: 2px solid #667eea; padding-bottom: 10px; }\n        .info { margin: 15px 0; padding: 10px; background: #e9ecef; border-radius: 4px; border-left: 4px solid #667eea; }\n        .success { color: #27ae60; font-weight: bold; }\n        .error { color: #e74c3c; font-weight: bold; }\n        .note { margin-top: 20px; padding: 15px; background: #fff3cd; border-left: 4px solid #ffc107; font-style: italic; }\n    </style>\n</head>\n<body>\n    <div class=\"container\">\n        <h1>bakpiaRun Web Server</h1>\n        <p class=\"");
    if ok {
        push_str(&mut s, "success");
    } else {
        push_str(&mut s, "error");
    }
    push_str(&mut s, "\">PHP Execution: ");
    if ok {
        push_str(&mut s, "Success");
    } else {
        push_str(&mut s, "Failed");
    }
    push_str(&mut s, "</p>\n        <div class=\"info\"><strong>Method:</strong> ");
    push_str(&mut s, req.method.as_str());
    push_str(&mut s, "</div>\n        <div class=\"info\"><strong>URI:</strong> ");
    push_str(&mut s, req.uri.as_str());
    push_str(&mut s, "</div>\n        <div class=\"info\"><strong>File:</strong> ");
    push_str(&mut s, req.file_path.as_str());
    push_str(&mut s, "</div>\n        <div class=\"note\">\n            <strong>Note:</strong> Output dari PHP (echo/print) ditampilkan di terminal server. \n            Halaman ini di-generate oleh Rust.\n        </div>\n    </div>\n</body>\n</html>");
    PhpResponse { status: if ok { 200 } else { 500 }, body: s }
}

/// The headers of the HTTP answer carrying the PHP thread's answer.
pub fn answer_headers() -> (r: Vec<(String, String)>)
    ensures
        crate::text::pair_texts(r@) == seq![
            ("Content-Type"@, "text/html; charset=utf-8"@),
            ("X-Powered-By"@, "bakpiaRun/0.2.0"@),
        ],
{
    let mut out: Vec<(String, String)> = Vec::new();
    crate::security::push_header(&mut out, "Content-Type", "text/html; charset=utf-8");
    crate::security::push_header(&mut out, "X-Powered-By", "bakpiaRun/0.2.0");
    assert(crate::text::pair_texts(out@) =~= seq![
        ("Content-Type"@, "text/html; charset=utf-8"@),
        ("X-Powered-By"@, "bakpiaRun/0.2.0"@),
    ]);
    out
}

} // verus!
