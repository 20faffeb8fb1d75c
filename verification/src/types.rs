//! The request handed to a PHP worker and the worker's answer.

use vstd::prelude::*;
use crate::text::{decimal, fresh_id, from_utf8_lossy, push_str, u64_to_string, utf8_lossy};

verus! {

/// An uploaded file, as the worker sees it in `$_FILES`.
pub struct FileInfo {
    pub name: String,
    pub content_type: String,
    pub size: usize,
    pub tmp_path: String,
}

/// A request for a PHP worker. The maps are kept as lists of pairs in
/// arrival order; where a name occurs twice the later pair is meant to win.
pub struct PhpRequest {
    pub method: String,
    pub uri: String,
    pub file_path: String,
    pub query_string: String,
    pub query_params: Vec<(String, String)>,
    pub post_params: Vec<(String, String)>,
    pub cookies: Vec<(String, String)>,
    pub headers: Vec<(String, String)>,
    pub body: String,
    pub content_type: String,
    pub content_length: String,
    pub files: Vec<(String, Vec<FileInfo>)>,
}

/// A PHP worker's answer: status, body, the memory in use and at its peak
/// (bytes), and the header lines the script emitted.
pub struct PhpResponse {
    pub status: u16,
    pub body: String,
    pub memory: u64,
    pub peak: u64,
    pub headers: Vec<String>,
}

/// The directory uploads are written to.
pub open spec fn upload_dir() -> Seq<char> {
    "/tmp/bakpiarun_uploads/"@
}

impl FileInfo {
    /// An uploaded file; a part without a content type counts as
    /// `application/octet-stream`.
    pub fn new(name: String, content_type: Option<String>, size: usize, tmp_path: String) -> (r: Self)
        ensures
            r.name == name,
            r.size == size,
            r.tmp_path == tmp_path,
            match content_type {
                Some(ct) => r.content_type == ct,
                None => r.content_type@ == "application/octet-stream"@,
            },
    {
        let content_type = match content_type {
            Some(ct) => ct,
            None => "application/octet-stream".to_string(),
        };
        FileInfo { name, content_type, size, tmp_path }
    }
}

/// The path an upload is written to: the upload directory followed by an
/// id.
pub fn upload_path(id: &str) -> (r: String)
    ensures
        r@ == upload_dir() + id@,
{
    let mut s = String::new();
    push_str(&mut s, "/tmp/bakpiarun_uploads/");
    push_str(&mut s, id);
    s
}

/// A fresh path for an upload: the upload directory followed by a random
/// id.
pub fn new_upload_path() -> (r: String)
    ensures
        exists|id: Seq<char>| r@ == upload_dir() + id,
{
    let id = fresh_id();
    upload_path(id.as_str())
}

/// The parts of a request that come straight from the HTTP request.
pub struct RequestLine {
    pub method: String,
    pub uri: String,
    pub query: Option<String>,
    pub content_type: String,
}

impl PhpRequest {
    /// Assembles the request for a worker: the query string is the URI's
    /// query or empty, the body is the received bytes read as UTF-8 (with
    /// replacement characters), and the content length is the number of
    /// bytes received.
    pub fn assemble(
        line: RequestLine,
        file_path: String,
        query_params: Vec<(String, String)>,
        post_params: Vec<(String, String)>,
        cookies: Vec<(String, String)>,
        headers: Vec<(String, String)>,
        body_bytes: &[u8],
        files: Vec<(String, Vec<FileInfo>)>,
    ) -> (r: Self)
        ensures
            r.method == line.method,
            r.uri == line.uri,
            r.file_path == file_path,
            r.query_string@ == (match line.query {
                Some(q) => q@,
                None => Seq::<char>::empty(),
            }),
            r.query_params == query_params,
            r.post_params == post_params,
            r.cookies == cookies,
            r.headers == headers,
            r.body@ == utf8_lossy(body_bytes@),
            r.content_type == line.content_type,
            r.content_length@ == decimal(body_bytes@.len()),
            r.files == files,
    {
        let query_string = match line.query {
            Some(q) => q,
            None => String::new(),
        };
        let body = from_utf8_lossy(body_bytes);
        let content_length = u64_to_string(body_bytes.len() as u64);
        PhpRequest {
            method: line.method,
            uri: line.uri,
            file_path,
            query_string,
            query_params,
            post_params,
            cookies,
            headers,
            body,
            content_type: line.content_type,
            content_length,
            files,
        }
    }
}

} // verus!
