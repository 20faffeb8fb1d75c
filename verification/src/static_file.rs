//! Static-file decisions: which request paths may be served from the
//! document root, which files count as static, and their MIME types.

use vstd::prelude::*;
use crate::clock::{http_date_at, http_date_text};
use crate::security::push_header;
use crate::text::{
    ascii_lower, ascii_lowercase, chars_of, lemma_split_char_nonempty, decimal_signed, eq_ignore_ascii_case, i64_to_string, is_ascii_text, decimal, pair_texts, push_char, push_decimal, push_str, split_char, split_chars,
    str_eq, string_of_chars, string_of_range,
};

verus! {

/// What `str::to_lowercase` makes of text that is not all ASCII: the
/// Unicode lower-case mapping, whose tables are not restated here.
pub uninterp spec fn unicode_lowercase(s: Seq<char>) -> Seq<char>;

/// The lower-case form of a text, as `str::to_lowercase` gives it: on
/// ASCII text, `A`..`Z` become `a`..`z` and every other character stays.
pub open spec fn lowercase(s: Seq<char>) -> Seq<char> {
    if is_ascii_text(s) {
        ascii_lowercase(s)
    } else {
        unicode_lowercase(s)
    }
}

/// `s.to_lowercase()`. On ASCII text the result is the ASCII lower-casing,
/// as std documents; on other text it is only named.
#[verifier::external_body]
fn to_lowercase(s: &str) -> (r: String)
    ensures
        is_ascii_text(s@) ==> r@ == ascii_lowercase(s@),
        !is_ascii_text(s@) ==> r@ == unicode_lowercase(s@),
{
    s.to_lowercase()
}

/// The text `..`.
pub open spec fn parent_dir() -> Seq<char> {
    seq!['.', '.']
}

/// A request sub-path that stays inside the document root: relative (no
/// leading `/`) and with no `..` component. Components are the pieces
/// between `/` separators, as Unix paths have them; percent-encoded text is
/// ordinary name characters.
pub open spec fn safe_subpath(s: Seq<char>) -> bool {
    &&& !(s.len() > 0 && s[0] == '/')
    &&& forall|k: int|
        0 <= k < split_char(s, '/').len() ==> #[trigger] split_char(s, '/')[k] != parent_dir()
}

/// Whether `v` is the two characters `..`.
fn is_parent_dir(v: &Vec<char>) -> (r: bool)
    ensures
        r == (v@ == parent_dir()),
{
    if v.len() == 2 && v[0] == '.' && v[1] == '.' {
        assert(v@ =~= parent_dir());
        true
    } else {
        false
    }
}

/// Rejects request sub-paths that could escape the document root.
pub fn is_safe_subpath(subpath: &str) -> (r: bool)
    ensures
        r == safe_subpath(subpath@),
{
    let v = chars_of(subpath);
    if v.len() > 0 && v[0] == '/' {
        return false;
    }
    let pieces = split_chars(&v, '/');
    let n = pieces.len();
    for k in 0..n
        invariant
            n == pieces@.len(),
            v@ == subpath@,
            pieces@.len() == split_char(v@, '/').len(),
            forall|j: int| 0 <= j < pieces@.len() ==> #[trigger] pieces@[j]@ == split_char(v@, '/')[j],
            forall|j: int| 0 <= j < k ==> #[trigger] split_char(v@, '/')[j] != parent_dir(),
    {
        if is_parent_dir(&pieces[k]) {
            assert(split_char(v@, '/')[k as int] == parent_dir());
            return false;
        }
    }
    true
}

/// The path with its leading `/` characters removed.
pub open spec fn trim_leading_slashes(s: Seq<char>) -> Seq<char>
    decreases s.len(),
{
    if s.len() > 0 && s[0] == '/' {
        trim_leading_slashes(s.drop_first())
    } else {
        s
    }
}

/// The document-root relative path for a request path: the path without
/// its leading slashes, when that is a safe sub-path.
pub fn request_subpath(uri: &str) -> (r: Option<String>)
    ensures
        match r {
            Some(p) => p@ == trim_leading_slashes(uri@) && safe_subpath(p@),
            None => !safe_subpath(trim_leading_slashes(uri@)),
        },
{
    let v = chars_of(uri);
    let n = v.len();
    let mut i: usize = 0;
    assert(v@.subrange(0, n as int) =~= v@);
    while i < n && v[i] == '/'
        invariant
            i <= n == v@.len(),
            trim_leading_slashes(v@) == trim_leading_slashes(v@.subrange(i as int, n as int)),
        decreases n - i,
    {
        proof {
            let t = v@.subrange(i as int, n as int);
            assert(t.drop_first() =~= v@.subrange(i + 1, n as int));
        }
        i = i + 1;
    }
    proof {
        assert(v@.subrange(0, n as int) =~= v@);
    }
    let clean = string_of_range(&v, i, n);
    proof {
        let t = v@.subrange(i as int, n as int);
        assert(trim_leading_slashes(t) == t);
    }
    if is_safe_subpath(clean.as_str()) {
        Some(clean)
    } else {
        None
    }
}

/// The MIME type for a lower-case file extension.
pub open spec fn mime_of(ext: Seq<char>) -> Seq<char> {
    if ext == "html"@ || ext == "htm"@ {
        "text/html; charset=utf-8"@
    } else if ext == "css"@ {
        "text/css; charset=utf-8"@
    } else if ext == "js"@ || ext == "mjs"@ {
        "application/javascript; charset=utf-8"@
    } else if ext == "json"@ {
        "application/json; charset=utf-8"@
    } else if ext == "xml"@ {
        "application/xml; charset=utf-8"@
    } else if ext == "txt"@ {
        "text/plain; charset=utf-8"@
    } else if ext == "png"@ {
        "image/png"@
    } else if ext == "jpg"@ || ext == "jpeg"@ {
        "image/jpeg"@
    } else if ext == "gif"@ {
        "image/gif"@
    } else if ext == "svg"@ {
        "image/svg+xml"@
    } else if ext == "webp"@ {
        "image/webp"@
    } else if ext == "ico"@ {
        "image/x-icon"@
    } else if ext == "woff"@ {
        "font/woff"@
    } else if ext == "woff2"@ {
        "font/woff2"@
    } else if ext == "ttf"@ {
        "font/ttf"@
    } else if ext == "otf"@ {
        "font/otf"@
    } else if ext == "eot"@ {
        "application/vnd.ms-fontobject"@
    } else if ext == "mp3"@ {
        "audio/mpeg"@
    } else if ext == "mp4"@ {
        "video/mp4"@
    } else if ext == "webm"@ {
        "video/webm"@
    } else if ext == "ogg"@ {
        "audio/ogg"@
    } else if ext == "wav"@ {
        "audio/wav"@
    } else if ext == "pdf"@ {
        "application/pdf"@
    } else if ext == "zip"@ {
        "application/zip"@
    } else if ext == "gz"@ || ext == "gzip"@ {
        "application/gzip"@
    } else if ext == "wasm"@ {
        "application/wasm"@
    } else if ext == "map"@ {
        "application/json"@
    } else {
        "application/octet-stream"@
    }
}

/// The extensions with a MIME type of their own (31 of them, lower-case).
pub open spec fn known_mime_extension(ext: Seq<char>) -> bool {
    ext == "html"@
        || ext == "htm"@
        || ext == "css"@
        || ext == "js"@
        || ext == "mjs"@
        || ext == "json"@
        || ext == "xml"@
        || ext == "txt"@
        || ext == "png"@
        || ext == "jpg"@
        || ext == "jpeg"@
        || ext == "gif"@
        || ext == "svg"@
        || ext == "webp"@
        || ext == "ico"@
        || ext == "woff"@
        || ext == "woff2"@
        || ext == "ttf"@
        || ext == "otf"@
        || ext == "eot"@
        || ext == "mp3"@
        || ext == "mp4"@
        || ext == "webm"@
        || ext == "ogg"@
        || ext == "wav"@
        || ext == "pdf"@
        || ext == "zip"@
        || ext == "gz"@
        || ext == "gzip"@
        || ext == "wasm"@
        || ext == "map"@
}

/// An extension gets a type of its own exactly when it is one of the
/// known ones; every other extension is served as
/// `application/octet-stream`.
pub proof fn lemma_mime_known(ext: Seq<char>)
    ensures
        mime_of(ext) != "application/octet-stream"@ <==> known_mime_extension(ext),
{
    reveal_strlit("text/html; charset=utf-8");
    reveal_strlit("text/css; charset=utf-8");
    reveal_strlit("application/javascript; charset=utf-8");
    reveal_strlit("application/json; charset=utf-8");
    reveal_strlit("application/xml; charset=utf-8");
    reveal_strlit("text/plain; charset=utf-8");
    reveal_strlit("image/png");
    reveal_strlit("image/jpeg");
    reveal_strlit("image/gif");
    reveal_strlit("image/svg+xml");
    reveal_strlit("image/webp");
    reveal_strlit("image/x-icon");
    reveal_strlit("font/woff");
    reveal_strlit("font/woff2");
    reveal_strlit("font/ttf");
    reveal_strlit("font/otf");
    reveal_strlit("application/vnd.ms-fontobject");
    reveal_strlit("audio/mpeg");
    reveal_strlit("video/mp4");
    reveal_strlit("video/webm");
    reveal_strlit("audio/ogg");
    reveal_strlit("audio/wav");
    reveal_strlit("application/pdf");
    reveal_strlit("application/zip");
    reveal_strlit("application/gzip");
    reveal_strlit("application/wasm");
    reveal_strlit("application/json");
    reveal_strlit("application/octet-stream");
    assert("text/html; charset=utf-8"@[0] != "application/octet-stream"@[0]);
    assert("text/css; charset=utf-8"@.len() != "application/octet-stream"@.len());
    assert("application/javascript; charset=utf-8"@.len() != "application/octet-stream"@.len());
    assert("application/json; charset=utf-8"@.len() != "application/octet-stream"@.len());
    assert("application/xml; charset=utf-8"@.len() != "application/octet-stream"@.len());
    assert("text/plain; charset=utf-8"@.len() != "application/octet-stream"@.len());
    assert("image/png"@.len() != "application/octet-stream"@.len());
    assert("image/jpeg"@.len() != "application/octet-stream"@.len());
    assert("image/gif"@.len() != "application/octet-stream"@.len());
    assert("image/svg+xml"@.len() != "application/octet-stream"@.len());
    assert("image/webp"@.len() != "application/octet-stream"@.len());
    assert("image/x-icon"@.len() != "application/octet-stream"@.len());
    assert("font/woff"@.len() != "application/octet-stream"@.len());
    assert("font/woff2"@.len() != "application/octet-stream"@.len());
    assert("font/ttf"@.len() != "application/octet-stream"@.len());
    assert("font/otf"@.len() != "application/octet-stream"@.len());
    assert("application/vnd.ms-fontobject"@.len() != "application/octet-stream"@.len());
    assert("audio/mpeg"@.len() != "application/octet-stream"@.len());
    assert("video/mp4"@.len() != "application/octet-stream"@.len());
    assert("video/webm"@.len() != "application/octet-stream"@.len());
    assert("audio/ogg"@.len() != "application/octet-stream"@.len());
    assert("audio/wav"@.len() != "application/octet-stream"@.len());
    assert("application/pdf"@.len() != "application/octet-stream"@.len());
    assert("application/zip"@.len() != "application/octet-stream"@.len());
    assert("application/gzip"@.len() != "application/octet-stream"@.len());
    assert("application/wasm"@.len() != "application/octet-stream"@.len());
    assert("application/json"@.len() != "application/octet-stream"@.len());
}

/// The MIME type for an extension that is already lower-case.
pub fn mime_type_for_lowercase(ext: &str) -> (r: &'static str)
    ensures
        r@ == mime_of(ext@),
{
    if str_eq(ext, "html") || str_eq(ext, "htm") {
        "text/html; charset=utf-8"
    } else if str_eq(ext, "css") {
        "text/css; charset=utf-8"
    } else if str_eq(ext, "js") || str_eq(ext, "mjs") {
        "application/javascript; charset=utf-8"
    } else if str_eq(ext, "json") {
        "application/json; charset=utf-8"
    } else if str_eq(ext, "xml") {
        "application/xml; charset=utf-8"
    } else if str_eq(ext, "txt") {
        "text/plain; charset=utf-8"
    } else if str_eq(ext, "png") {
        "image/png"
    } else if str_eq(ext, "jpg") || str_eq(ext, "jpeg") {
        "image/jpeg"
    } else if str_eq(ext, "gif") {
        "image/gif"
    } else if str_eq(ext, "svg") {
        "image/svg+xml"
    } else if str_eq(ext, "webp") {
        "image/webp"
    } else if str_eq(ext, "ico") {
        "image/x-icon"
    } else if str_eq(ext, "woff") {
        "font/woff"
    } else if str_eq(ext, "woff2") {
        "font/woff2"
    } else if str_eq(ext, "ttf") {
        "font/ttf"
    } else if str_eq(ext, "otf") {
        "font/otf"
    } else if str_eq(ext, "eot") {
        "application/vnd.ms-fontobject"
    } else if str_eq(ext, "mp3") {
        "audio/mpeg"
    } else if str_eq(ext, "mp4") {
        "video/mp4"
    } else if str_eq(ext, "webm") {
        "video/webm"
    } else if str_eq(ext, "ogg") {
        "audio/ogg"
    } else if str_eq(ext, "wav") {
        "audio/wav"
    } else if str_eq(ext, "pdf") {
        "application/pdf"
    } else if str_eq(ext, "zip") {
        "application/zip"
    } else if str_eq(ext, "gz") || str_eq(ext, "gzip") {
        "application/gzip"
    } else if str_eq(ext, "wasm") {
        "application/wasm"
    } else if str_eq(ext, "map") {
        "application/json"
    } else {
        "application/octet-stream"
    }
}

/// The MIME type of a file extension, in any case.
pub fn get_mime_type(extension: &str) -> (r: &'static str)
    ensures
        r@ == mime_of(lowercase(extension@)),
{
    let lower = to_lowercase(extension);
    mime_type_for_lowercase(lower.as_str())
}

/// The lower-case extensions of the files that are served as they are.
pub open spec fn static_extension(ext: Seq<char>) -> bool {
    ||| ext == "css"@ || ext == "js"@ || ext == "mjs"@ || ext == "json"@ || ext == "xml"@ || ext == "txt"@
    ||| ext == "png"@ || ext == "jpg"@ || ext == "jpeg"@ || ext == "gif"@ || ext == "svg"@ || ext == "webp"@ || ext == "ico"@
    ||| ext == "woff"@ || ext == "woff2"@ || ext == "ttf"@ || ext == "otf"@ || ext == "eot"@
    ||| ext == "mp3"@ || ext == "mp4"@ || ext == "webm"@ || ext == "ogg"@ || ext == "wav"@
    ||| ext == "pdf"@ || ext == "zip"@ || ext == "gz"@ || ext == "wasm"@ || ext == "map"@
    ||| ext == "html"@ || ext == "htm"@
}

/// Whether an extension that is already lower-case is a static one.
pub fn is_static_extension(ext: &str) -> (r: bool)
    ensures
        r == static_extension(ext@),
{
    str_eq(ext, "css") || str_eq(ext, "js") || str_eq(ext, "mjs") || str_eq(ext, "json") || str_eq(ext, "xml")
        || str_eq(ext, "txt") || str_eq(ext, "png") || str_eq(ext, "jpg") || str_eq(ext, "jpeg") || str_eq(ext, "gif")
        || str_eq(ext, "svg") || str_eq(ext, "webp") || str_eq(ext, "ico") || str_eq(ext, "woff") || str_eq(ext, "woff2")
        || str_eq(ext, "ttf") || str_eq(ext, "otf") || str_eq(ext, "eot") || str_eq(ext, "mp3") || str_eq(ext, "mp4")
        || str_eq(ext, "webm") || str_eq(ext, "ogg") || str_eq(ext, "wav") || str_eq(ext, "pdf") || str_eq(ext, "zip")
        || str_eq(ext, "gz") || str_eq(ext, "wasm") || str_eq(ext, "map") || str_eq(ext, "html") || str_eq(ext, "htm")
}

/// The final component of a Unix path, as `Path::file_name` gives it:
/// the last piece between `/` that is neither empty nor `.`, unless that
/// piece is `..` (then there is none).
pub open spec fn last_normal(pieces: Seq<Seq<char>>) -> Option<Seq<char>>
    decreases pieces.len(),
{
    if pieces.len() == 0 {
        None
    } else if pieces.last().len() == 0 || pieces.last() == seq!['.'] {
        last_normal(pieces.drop_last())
    } else if pieces.last() == parent_dir() {
        None
    } else {
        Some(pieces.last())
    }
}

/// Index of the last `c` in `s`, or `-1`.
pub open spec fn last_index_of(s: Seq<char>, c: char) -> int
    decreases s.len(),
{
    if s.len() == 0 {
        -1
    } else if s.last() == c {
        s.len() - 1
    } else {
        last_index_of(s.drop_last(), c)
    }
}

/// The extension of a file name, as `Path::extension` gives it: the text
/// after the last `.`, when that `.` is not the first character.
pub open spec fn name_extension(name: Seq<char>) -> Option<Seq<char>> {
    let k = last_index_of(name, '.');
    if k <= 0 {
        None
    } else {
        Some(name.subrange(k + 1, name.len() as int))
    }
}

/// The extension of a Unix path, `""` when it has none.
pub open spec fn path_extension(path: Seq<char>) -> Seq<char> {
    match last_normal(split_char(path, '/')) {
        None => Seq::<char>::empty(),
        Some(name) => match name_extension(name) {
            None => Seq::<char>::empty(),
            Some(e) => e,
        },
    }
}

/// The extension of a path (see `path_extension`).
pub fn extension_of(path: &str) -> (r: String)
    ensures
        r@ == path_extension(path@),
{
    let v = chars_of(path);
    let pieces = split_chars(&v, '/');
    let mut k = pieces.len();
    let ghost all = split_char(v@, '/');
    proof {
        assert(all.subrange(0, k as int) =~= all);
    }
    while k > 0 && (pieces[k - 1].len() == 0 || (pieces[k - 1].len() == 1 && pieces[k - 1][0] == '.'))
        invariant
            k <= pieces@.len() == all.len(),
            all == split_char(v@, '/'),
            v@ == path@,
            forall|j: int| 0 <= j < pieces@.len() ==> #[trigger] pieces@[j]@ == all[j],
            last_normal(all) == last_normal(all.subrange(0, k as int)),
        decreases k,
    {
        proof {
            let t = all.subrange(0, k as int);
            assert(t.drop_last() =~= all.subrange(0, k - 1));
            assert(t.last() == pieces@[k - 1]@);
            if pieces@[k - 1]@.len() == 1 {
                assert(pieces@[k - 1]@ =~= seq!['.']);
            }
        }
        k = k - 1;
    }
    if k == 0 {
        return String::new();
    }
    let name = &pieces[k - 1];
    proof {
        let t = all.subrange(0, k as int);
        assert(t.last() == name@);
        if name@.len() == 1 {
            assert(name@ != seq!['.']);
        }
    }
    if is_parent_dir(name) {
        return String::new();
    }
    let m = name.len();
    let mut j = m;
    assert(name@.subrange(0, m as int) =~= name@);
    while j > 0 && name[j - 1] != '.'
        invariant
            j <= m == name@.len(),
            last_index_of(name@, '.') == last_index_of(name@.subrange(0, j as int), '.'),
        decreases j,
    {
        proof {
            let t = name@.subrange(0, j as int);
            assert(t.drop_last() =~= name@.subrange(0, j - 1));
        }
        j = j - 1;
    }
    proof {
        assert(name@.subrange(0, m as int) =~= name@);
        if j > 0 {
            let t = name@.subrange(0, j as int);
            assert(t.last() == '.');
        } else {
            assert(name@.subrange(0, 0) =~= Seq::<char>::empty());
        }
    }
    if j <= 1 {
        return String::new();
    }
    string_of_range(name, j, m)
}

/// Splitting text without the separator gives that text as the one piece.
proof fn lemma_split_without_separator(t: Seq<char>, c: char)
    requires
        forall|i: int| 0 <= i < t.len() ==> t[i] != c,
    ensures
        split_char(t, c) == seq![t],
    decreases t.len(),
{
    if t.len() > 0 {
        lemma_split_without_separator(t.drop_first(), c);
        assert(seq![t[0]] + t.drop_first() =~= t);
        assert(seq![t].update(0, t) =~= seq![t]);
        assert(split_char(t, c) =~= seq![t]);
    } else {
        assert(t =~= Seq::<char>::empty());
    }
}

/// Appending text without the separator extends the last piece.
proof fn lemma_split_append(s: Seq<char>, t: Seq<char>, c: char)
    requires
        forall|i: int| 0 <= i < t.len() ==> t[i] != c,
    ensures
        split_char(s + t, c) == split_char(s, c).update(
            split_char(s, c).len() - 1,
            split_char(s, c).last() + t,
        ),
    decreases s.len(),
{
    lemma_split_char_nonempty(s, c);
    if s.len() == 0 {
        assert(s + t =~= t);
        lemma_split_without_separator(t, c);
        assert(Seq::<char>::empty() + t =~= t);
        assert(seq![t] =~= seq![Seq::<char>::empty()].update(0, Seq::<char>::empty() + t));
    } else {
        let sd = s.drop_first();
        assert((s + t).drop_first() =~= sd + t);
        assert((s + t)[0] == s[0]);
        lemma_split_append(sd, t, c);
        lemma_split_char_nonempty(sd, c);
        let rs = split_char(sd, c);
        if s[0] == c {
            assert(split_char(s + t, c) =~= split_char(s, c).update(
                split_char(s, c).len() - 1,
                split_char(s, c).last() + t,
            ));
        } else {
            if rs.len() == 1 {
                assert(seq![s[0]] + (rs[0] + t) =~= (seq![s[0]] + rs[0]) + t);
            }
            assert(split_char(s + t, c) =~= split_char(s, c).update(
                split_char(s, c).len() - 1,
                split_char(s, c).last() + t,
            ));
        }
    }
}

/// The last `.` of `a . e`, when `e` has none, is the one after `a`.
proof fn lemma_last_dot(a: Seq<char>, e: Seq<char>)
    requires
        forall|i: int| 0 <= i < e.len() ==> e[i] != '.',
    ensures
        last_index_of(a + seq!['.'] + e, '.') == a.len(),
    decreases e.len(),
{
    let w = a + seq!['.'] + e;
    if e.len() > 0 {
        assert(w.drop_last() =~= a + seq!['.'] + e.drop_last());
        assert(w.last() == e.last());
        lemma_last_dot(a, e.drop_last());
    } else {
        assert(w.last() == '.');
    }
}

/// The extension of a path is the text after the last `.` of its file
/// name: for a path made of a prefix that does not end in `/`, a `.` and a
/// text with neither `.` nor `/`, the extension is that text (so
/// `/a/archive.tar.gz` has extension `gz`, `/img/LOGO.PNG` has `PNG`).
pub proof fn lemma_path_extension_after_last_dot(prefix: Seq<char>, ext: Seq<char>)
    requires
        prefix.len() > 0,
        prefix.last() != '/',
        forall|i: int| 0 <= i < ext.len() ==> ext[i] != '.' && ext[i] != '/',
    ensures
        path_extension(prefix + seq!['.'] + ext) == ext,
{
    let t = seq!['.'] + ext;
    assert forall|i: int| 0 <= i < t.len() implies t[i] != '/' by {
        if i > 0 {
            assert(t[i] == ext[i - 1]);
        }
    }
    let path = prefix + seq!['.'] + ext;
    assert(prefix + t =~= path);
    lemma_split_append(prefix, t, '/');
    let pre = prefix.drop_last();
    let x = seq![prefix.last()];
    assert(pre + x =~= prefix);
    lemma_split_append(pre, x, '/');
    lemma_split_char_nonempty(pre, '/');
    let p = split_char(prefix, '/');
    let head = p.last();
    assert(head.len() > 0);
    let pieces = split_char(path, '/');
    let name = head + t;
    assert(pieces.last() == name);
    assert(name =~= head + seq!['.'] + ext);
    lemma_last_dot(head, ext);
    assert(name.len() >= 2);
    if name == parent_dir() {
        assert(ext.len() == 0);
        assert(last_normal(pieces) is None);
    } else {
        assert(name != seq!['.']);
        assert(last_normal(pieces) == Some(name));
        assert(name.subrange((head.len() + 1) as int, name.len() as int) =~= ext);
    }
}

/// Whether a request path names a static file (by its extension, in any case).
pub fn is_static_file(path: &str) -> (r: bool)
    ensures
        r == static_extension(lowercase(path_extension(path@))),
{
    let ext = extension_of(path);
    let lower = to_lowercase(ext.as_str());
    is_static_extension(lower.as_str())
}

/// The MIME table: each known lower-case extension gets its own fixed
/// type (`jpg` and `jpeg` are `image/jpeg`, `png` is `image/png`, ...),
/// and every other extension `application/octet-stream`. With
/// `get_mime_type` returning `mime_of(lowercase(ext))`, and lower-casing
/// of ASCII text folding `A`-`Z` to `a`-`z`, this fixes the type of an
/// extension in any case.
pub proof fn lemma_mime_table(e: Seq<char>)
    ensures
        e == "html"@ ==> mime_of(e) == "text/html; charset=utf-8"@,
        e == "htm"@ ==> mime_of(e) == "text/html; charset=utf-8"@,
        e == "css"@ ==> mime_of(e) == "text/css; charset=utf-8"@,
        e == "js"@ ==> mime_of(e) == "application/javascript; charset=utf-8"@,
        e == "mjs"@ ==> mime_of(e) == "application/javascript; charset=utf-8"@,
        e == "json"@ ==> mime_of(e) == "application/json; charset=utf-8"@,
        e == "xml"@ ==> mime_of(e) == "application/xml; charset=utf-8"@,
        e == "txt"@ ==> mime_of(e) == "text/plain; charset=utf-8"@,
        e == "png"@ ==> mime_of(e) == "image/png"@,
        e == "jpg"@ ==> mime_of(e) == "image/jpeg"@,
        e == "jpeg"@ ==> mime_of(e) == "image/jpeg"@,
        e == "gif"@ ==> mime_of(e) == "image/gif"@,
        e == "svg"@ ==> mime_of(e) == "image/svg+xml"@,
        e == "webp"@ ==> mime_of(e) == "image/webp"@,
        e == "ico"@ ==> mime_of(e) == "image/x-icon"@,
        e == "woff"@ ==> mime_of(e) == "font/woff"@,
        e == "woff2"@ ==> mime_of(e) == "font/woff2"@,
        e == "ttf"@ ==> mime_of(e) == "font/ttf"@,
        e == "otf"@ ==> mime_of(e) == "font/otf"@,
        e == "eot"@ ==> mime_of(e) == "application/vnd.ms-fontobject"@,
        e == "mp3"@ ==> mime_of(e) == "audio/mpeg"@,
        e == "mp4"@ ==> mime_of(e) == "video/mp4"@,
        e == "webm"@ ==> mime_of(e) == "video/webm"@,
        e == "ogg"@ ==> mime_of(e) == "audio/ogg"@,
        e == "wav"@ ==> mime_of(e) == "audio/wav"@,
        e == "pdf"@ ==> mime_of(e) == "application/pdf"@,
        e == "zip"@ ==> mime_of(e) == "application/zip"@,
        e == "gz"@ ==> mime_of(e) == "application/gzip"@,
        e == "gzip"@ ==> mime_of(e) == "application/gzip"@,
        e == "wasm"@ ==> mime_of(e) == "application/wasm"@,
        e == "map"@ ==> mime_of(e) == "application/json"@,
        (e != "html"@ && e != "htm"@ && e != "css"@ && e != "js"@ && e != "mjs"@ && e != "json"@ && e != "xml"@ && e != "txt"@ && e != "png"@ && e != "jpg"@ && e != "jpeg"@ && e != "gif"@ && e != "svg"@ && e != "webp"@ && e != "ico"@ && e != "woff"@ && e != "woff2"@ && e != "ttf"@ && e != "otf"@ && e != "eot"@ && e != "mp3"@ && e != "mp4"@ && e != "webm"@ && e != "ogg"@ && e != "wav"@ && e != "pdf"@ && e != "zip"@ && e != "gz"@ && e != "gzip"@ && e != "wasm"@ && e != "map"@) ==> mime_of(e) == "application/octet-stream"@,
{
    reveal_strlit("html");
    reveal_strlit("text/html; charset=utf-8");
    reveal_strlit("htm");
    reveal_strlit("css");
    reveal_strlit("text/css; charset=utf-8");
    reveal_strlit("js");
    reveal_strlit("application/javascript; charset=utf-8");
    reveal_strlit("mjs");
    reveal_strlit("json");
    reveal_strlit("application/json; charset=utf-8");
    reveal_strlit("xml");
    reveal_strlit("application/xml; charset=utf-8");
    reveal_strlit("txt");
    reveal_strlit("text/plain; charset=utf-8");
    reveal_strlit("png");
    reveal_strlit("image/png");
    reveal_strlit("jpg");
    reveal_strlit("image/jpeg");
    reveal_strlit("jpeg");
    reveal_strlit("gif");
    reveal_strlit("image/gif");
    reveal_strlit("svg");
    reveal_strlit("image/svg+xml");
    reveal_strlit("webp");
    reveal_strlit("image/webp");
    reveal_strlit("ico");
    reveal_strlit("image/x-icon");
    reveal_strlit("woff");
    reveal_strlit("font/woff");
    reveal_strlit("woff2");
    reveal_strlit("font/woff2");
    reveal_strlit("ttf");
    reveal_strlit("font/ttf");
    reveal_strlit("otf");
    reveal_strlit("font/otf");
    reveal_strlit("eot");
    reveal_strlit("application/vnd.ms-fontobject");
    reveal_strlit("mp3");
    reveal_strlit("audio/mpeg");
    reveal_strlit("mp4");
    reveal_strlit("video/mp4");
    reveal_strlit("webm");
    reveal_strlit("video/webm");
    reveal_strlit("ogg");
    reveal_strlit("audio/ogg");
    reveal_strlit("wav");
    reveal_strlit("audio/wav");
    reveal_strlit("pdf");
    reveal_strlit("application/pdf");
    reveal_strlit("zip");
    reveal_strlit("application/zip");
    reveal_strlit("gz");
    reveal_strlit("application/gzip");
    reveal_strlit("gzip");
    reveal_strlit("wasm");
    reveal_strlit("application/wasm");
    reveal_strlit("map");
    reveal_strlit("application/json");
    if e == "html"@ {
        assert(mime_of("html"@) == "text/html; charset=utf-8"@);
    }
    if e == "htm"@ {
        assert(mime_of("htm"@) == "text/html; charset=utf-8"@) by {
            assert("htm"@.len() != "html"@.len());
            assert("htm"@ != "html"@);
        }
    }
    if e == "css"@ {
        assert(mime_of("css"@) == "text/css; charset=utf-8"@) by {
            assert("css"@[0] != "htm"@[0]);
            assert("css"@.len() != "html"@.len());
            assert("css"@ != "html"@ && "css"@ != "htm"@);
        }
    }
    if e == "js"@ {
        assert(mime_of("js"@) == "application/javascript; charset=utf-8"@) by {
            assert("js"@.len() != "html"@.len() && "js"@.len() != "htm"@.len() && "js"@.len() != "css"@.len());
            assert("js"@ != "html"@ && "js"@ != "htm"@ && "js"@ != "css"@);
        }
    }
    if e == "mjs"@ {
        assert(mime_of("mjs"@) == "application/javascript; charset=utf-8"@) by {
            assert("mjs"@[0] != "htm"@[0] && "mjs"@[0] != "css"@[0]);
            assert("mjs"@.len() != "html"@.len() && "mjs"@.len() != "js"@.len());
            assert("mjs"@ != "html"@ && "mjs"@ != "htm"@ && "mjs"@ != "css"@ && "mjs"@ != "js"@);
        }
    }
    if e == "json"@ {
        assert(mime_of("json"@) == "application/json; charset=utf-8"@) by {
            assert("json"@[0] != "html"@[0]);
            assert("json"@.len() != "htm"@.len() && "json"@.len() != "css"@.len() && "json"@.len() != "js"@.len() && "json"@.len() != "mjs"@.len());
            assert("json"@ != "html"@ && "json"@ != "htm"@ && "json"@ != "css"@ && "json"@ != "js"@ && "json"@ != "mjs"@);
        }
    }
    if e == "xml"@ {
        assert(mime_of("xml"@) == "application/xml; charset=utf-8"@) by {
            assert("xml"@[0] != "htm"@[0] && "xml"@[0] != "css"@[0] && "xml"@[0] != "mjs"@[0]);
            assert("xml"@.len() != "html"@.len() && "xml"@.len() != "js"@.len() && "xml"@.len() != "json"@.len());
            assert("xml"@ != "html"@ && "xml"@ != "htm"@ && "xml"@ != "css"@ && "xml"@ != "js"@ && "xml"@ != "mjs"@ && "xml"@ != "json"@);
        }
    }
    if e == "txt"@ {
        assert(mime_of("txt"@) == "text/plain; charset=utf-8"@) by {
            assert("txt"@[0] != "htm"@[0] && "txt"@[0] != "css"@[0] && "txt"@[0] != "mjs"@[0] && "txt"@[0] != "xml"@[0]);
            assert("txt"@.len() != "html"@.len() && "txt"@.len() != "js"@.len() && "txt"@.len() != "json"@.len());
            assert("txt"@ != "html"@ && "txt"@ != "htm"@ && "txt"@ != "css"@ && "txt"@ != "js"@ && "txt"@ != "mjs"@ && "txt"@ != "json"@ && "txt"@ != "xml"@);
        }
    }
    if e == "png"@ {
        assert(mime_of("png"@) == "image/png"@) by {
            assert("png"@[0] != "htm"@[0] && "png"@[0] != "css"@[0] && "png"@[0] != "mjs"@[0] && "png"@[0] != "xml"@[0] && "png"@[0] != "txt"@[0]);
            assert("png"@.len() != "html"@.len() && "png"@.len() != "js"@.len() && "png"@.len() != "json"@.len());
            assert("png"@ != "html"@ && "png"@ != "htm"@ && "png"@ != "css"@ && "png"@ != "js"@ && "png"@ != "mjs"@ && "png"@ != "json"@ && "png"@ != "xml"@ && "png"@ != "txt"@);
        }
    }
    if e == "jpg"@ {
        assert(mime_of("jpg"@) == "image/jpeg"@) by {
            assert("jpg"@[0] != "htm"@[0] && "jpg"@[0] != "css"@[0] && "jpg"@[0] != "mjs"@[0] && "jpg"@[0] != "xml"@[0] && "jpg"@[0] != "txt"@[0] && "jpg"@[0] != "png"@[0]);
            assert("jpg"@.len() != "html"@.len() && "jpg"@.len() != "js"@.len() && "jpg"@.len() != "json"@.len());
            assert("jpg"@ != "html"@ && "jpg"@ != "htm"@ && "jpg"@ != "css"@ && "jpg"@ != "js"@ && "jpg"@ != "mjs"@ && "jpg"@ != "json"@ && "jpg"@ != "xml"@ && "jpg"@ != "txt"@ && "jpg"@ != "png"@);
        }
    }
    if e == "jpeg"@ {
        assert(mime_of("jpeg"@) == "image/jpeg"@) by {
            assert("jpeg"@[0] != "html"@[0] && "jpeg"@[1] != "json"@[1]);
            assert("jpeg"@.len() != "htm"@.len() && "jpeg"@.len() != "css"@.len() && "jpeg"@.len() != "js"@.len() && "jpeg"@.len() != "mjs"@.len() && "jpeg"@.len() != "xml"@.len() && "jpeg"@.len() != "txt"@.len() && "jpeg"@.len() != "png"@.len() && "jpeg"@.len() != "jpg"@.len());
            assert("jpeg"@ != "html"@ && "jpeg"@ != "htm"@ && "jpeg"@ != "css"@ && "jpeg"@ != "js"@ && "jpeg"@ != "mjs"@ && "jpeg"@ != "json"@ && "jpeg"@ != "xml"@ && "jpeg"@ != "txt"@ && "jpeg"@ != "png"@ && "jpeg"@ != "jpg"@);
        }
    }
    if e == "gif"@ {
        assert(mime_of("gif"@) == "image/gif"@) by {
            assert("gif"@[0] != "htm"@[0] && "gif"@[0] != "css"@[0] && "gif"@[0] != "mjs"@[0] && "gif"@[0] != "xml"@[0] && "gif"@[0] != "txt"@[0] && "gif"@[0] != "png"@[0] && "gif"@[0] != "jpg"@[0]);
            assert("gif"@.len() != "html"@.len() && "gif"@.len() != "js"@.len() && "gif"@.len() != "json"@.len() && "gif"@.len() != "jpeg"@.len());
            assert("gif"@ != "html"@ && "gif"@ != "htm"@ && "gif"@ != "css"@ && "gif"@ != "js"@ && "gif"@ != "mjs"@ && "gif"@ != "json"@ && "gif"@ != "xml"@ && "gif"@ != "txt"@ && "gif"@ != "png"@ && "gif"@ != "jpg"@ && "gif"@ != "jpeg"@);
        }
    }
    if e == "svg"@ {
        assert(mime_of("svg"@) == "image/svg+xml"@) by {
            assert("svg"@[0] != "htm"@[0] && "svg"@[0] != "css"@[0] && "svg"@[0] != "mjs"@[0] && "svg"@[0] != "xml"@[0] && "svg"@[0] != "txt"@[0] && "svg"@[0] != "png"@[0] && "svg"@[0] != "jpg"@[0] && "svg"@[0] != "gif"@[0]);
            assert("svg"@.len() != "html"@.len() && "svg"@.len() != "js"@.len() && "svg"@.len() != "json"@.len() && "svg"@.len() != "jpeg"@.len());
            assert("svg"@ != "html"@ && "svg"@ != "htm"@ && "svg"@ != "css"@ && "svg"@ != "js"@ && "svg"@ != "mjs"@ && "svg"@ != "json"@ && "svg"@ != "xml"@ && "svg"@ != "txt"@ && "svg"@ != "png"@ && "svg"@ != "jpg"@ && "svg"@ != "jpeg"@ && "svg"@ != "gif"@);
        }
    }
    if e == "webp"@ {
        assert(mime_of("webp"@) == "image/webp"@) by {
            assert("webp"@[0] != "html"@[0] && "webp"@[0] != "json"@[0] && "webp"@[0] != "jpeg"@[0]);
            assert("webp"@.len() != "htm"@.len() && "webp"@.len() != "css"@.len() && "webp"@.len() != "js"@.len() && "webp"@.len() != "mjs"@.len() && "webp"@.len() != "xml"@.len() && "webp"@.len() != "txt"@.len() && "webp"@.len() != "png"@.len() && "webp"@.len() != "jpg"@.len() && "webp"@.len() != "gif"@.len() && "webp"@.len() != "svg"@.len());
            assert("webp"@ != "html"@ && "webp"@ != "htm"@ && "webp"@ != "css"@ && "webp"@ != "js"@ && "webp"@ != "mjs"@ && "webp"@ != "json"@ && "webp"@ != "xml"@ && "webp"@ != "txt"@ && "webp"@ != "png"@ && "webp"@ != "jpg"@ && "webp"@ != "jpeg"@ && "webp"@ != "gif"@ && "webp"@ != "svg"@);
        }
    }
    if e == "ico"@ {
        assert(mime_of("ico"@) == "image/x-icon"@) by {
            assert("ico"@[0] != "htm"@[0] && "ico"@[0] != "css"@[0] && "ico"@[0] != "mjs"@[0] && "ico"@[0] != "xml"@[0] && "ico"@[0] != "txt"@[0] && "ico"@[0] != "png"@[0] && "ico"@[0] != "jpg"@[0] && "ico"@[0] != "gif"@[0] && "ico"@[0] != "svg"@[0]);
            assert("ico"@.len() != "html"@.len() && "ico"@.len() != "js"@.len() && "ico"@.len() != "json"@.len() && "ico"@.len() != "jpeg"@.len() && "ico"@.len() != "webp"@.len());
            assert("ico"@ != "html"@ && "ico"@ != "htm"@ && "ico"@ != "css"@ && "ico"@ != "js"@ && "ico"@ != "mjs"@ && "ico"@ != "json"@ && "ico"@ != "xml"@ && "ico"@ != "txt"@ && "ico"@ != "png"@ && "ico"@ != "jpg"@ && "ico"@ != "jpeg"@ && "ico"@ != "gif"@ && "ico"@ != "svg"@ && "ico"@ != "webp"@);
        }
    }
    if e == "woff"@ {
        assert(mime_of("woff"@) == "font/woff"@) by {
            assert("woff"@[0] != "html"@[0] && "woff"@[0] != "json"@[0] && "woff"@[0] != "jpeg"@[0] && "woff"@[1] != "webp"@[1]);
            assert("woff"@.len() != "htm"@.len() && "woff"@.len() != "css"@.len() && "woff"@.len() != "js"@.len() && "woff"@.len() != "mjs"@.len() && "woff"@.len() != "xml"@.len() && "woff"@.len() != "txt"@.len() && "woff"@.len() != "png"@.len() && "woff"@.len() != "jpg"@.len() && "woff"@.len() != "gif"@.len() && "woff"@.len() != "svg"@.len() && "woff"@.len() != "ico"@.len());
            assert("woff"@ != "html"@ && "woff"@ != "htm"@ && "woff"@ != "css"@ && "woff"@ != "js"@ && "woff"@ != "mjs"@ && "woff"@ != "json"@ && "woff"@ != "xml"@ && "woff"@ != "txt"@ && "woff"@ != "png"@ && "woff"@ != "jpg"@ && "woff"@ != "jpeg"@ && "woff"@ != "gif"@ && "woff"@ != "svg"@ && "woff"@ != "webp"@ && "woff"@ != "ico"@);
        }
    }
    if e == "woff2"@ {
        assert(mime_of("woff2"@) == "font/woff2"@) by {
            assert("woff2"@.len() != "html"@.len() && "woff2"@.len() != "htm"@.len() && "woff2"@.len() != "css"@.len() && "woff2"@.len() != "js"@.len() && "woff2"@.len() != "mjs"@.len() && "woff2"@.len() != "json"@.len() && "woff2"@.len() != "xml"@.len() && "woff2"@.len() != "txt"@.len() && "woff2"@.len() != "png"@.len() && "woff2"@.len() != "jpg"@.len() && "woff2"@.len() != "jpeg"@.len() && "woff2"@.len() != "gif"@.len() && "woff2"@.len() != "svg"@.len() && "woff2"@.len() != "webp"@.len() && "woff2"@.len() != "ico"@.len() && "woff2"@.len() != "woff"@.len());
            assert("woff2"@ != "html"@ && "woff2"@ != "htm"@ && "woff2"@ != "css"@ && "woff2"@ != "js"@ && "woff2"@ != "mjs"@ && "woff2"@ != "json"@ && "woff2"@ != "xml"@ && "woff2"@ != "txt"@ && "woff2"@ != "png"@ && "woff2"@ != "jpg"@ && "woff2"@ != "jpeg"@ && "woff2"@ != "gif"@ && "woff2"@ != "svg"@ && "woff2"@ != "webp"@ && "woff2"@ != "ico"@ && "woff2"@ != "woff"@);
        }
    }
    if e == "ttf"@ {
        assert(mime_of("ttf"@) == "font/ttf"@) by {
            assert("ttf"@[0] != "htm"@[0] && "ttf"@[0] != "css"@[0] && "ttf"@[0] != "mjs"@[0] && "ttf"@[0] != "xml"@[0] && "ttf"@[1] != "txt"@[1] && "ttf"@[0] != "png"@[0] && "ttf"@[0] != "jpg"@[0] && "ttf"@[0] != "gif"@[0] && "ttf"@[0] != "svg"@[0] && "ttf"@[0] != "ico"@[0]);
            assert("ttf"@.len() != "html"@.len() && "ttf"@.len() != "js"@.len() && "ttf"@.len() != "json"@.len() && "ttf"@.len() != "jpeg"@.len() && "ttf"@.len() != "webp"@.len() && "ttf"@.len() != "woff"@.len() && "ttf"@.len() != "woff2"@.len());
            assert("ttf"@ != "html"@ && "ttf"@ != "htm"@ && "ttf"@ != "css"@ && "ttf"@ != "js"@ && "ttf"@ != "mjs"@ && "ttf"@ != "json"@ && "ttf"@ != "xml"@ && "ttf"@ != "txt"@ && "ttf"@ != "png"@ && "ttf"@ != "jpg"@ && "ttf"@ != "jpeg"@ && "ttf"@ != "gif"@ && "ttf"@ != "svg"@ && "ttf"@ != "webp"@ && "ttf"@ != "ico"@ && "ttf"@ != "woff"@ && "ttf"@ != "woff2"@);
        }
    }
    if e == "otf"@ {
        assert(mime_of("otf"@) == "font/otf"@) by {
            assert("otf"@[0] != "htm"@[0] && "otf"@[0] != "css"@[0] && "otf"@[0] != "mjs"@[0] && "otf"@[0] != "xml"@[0] && "otf"@[0] != "txt"@[0] && "otf"@[0] != "png"@[0] && "otf"@[0] != "jpg"@[0] && "otf"@[0] != "gif"@[0] && "otf"@[0] != "svg"@[0] && "otf"@[0] != "ico"@[0] && "otf"@[0] != "ttf"@[0]);
            assert("otf"@.len() != "html"@.len() && "otf"@.len() != "js"@.len() && "otf"@.len() != "json"@.len() && "otf"@.len() != "jpeg"@.len() && "otf"@.len() != "webp"@.len() && "otf"@.len() != "woff"@.len() && "otf"@.len() != "woff2"@.len());
            assert("otf"@ != "html"@ && "otf"@ != "htm"@ && "otf"@ != "css"@ && "otf"@ != "js"@ && "otf"@ != "mjs"@ && "otf"@ != "json"@ && "otf"@ != "xml"@ && "otf"@ != "txt"@ && "otf"@ != "png"@ && "otf"@ != "jpg"@ && "otf"@ != "jpeg"@ && "otf"@ != "gif"@ && "otf"@ != "svg"@ && "otf"@ != "webp"@ && "otf"@ != "ico"@ && "otf"@ != "woff"@ && "otf"@ != "woff2"@ && "otf"@ != "ttf"@);
        }
    }
    if e == "eot"@ {
        assert(mime_of("eot"@) == "application/vnd.ms-fontobject"@) by {
            assert("eot"@[0] != "htm"@[0] && "eot"@[0] != "css"@[0] && "eot"@[0] != "mjs"@[0] && "eot"@[0] != "xml"@[0] && "eot"@[0] != "txt"@[0] && "eot"@[0] != "png"@[0] && "eot"@[0] != "jpg"@[0] && "eot"@[0] != "gif"@[0] && "eot"@[0] != "svg"@[0] && "eot"@[0] != "ico"@[0] && "eot"@[0] != "ttf"@[0] && "eot"@[0] != "otf"@[0]);
            assert("eot"@.len() != "html"@.len() && "eot"@.len() != "js"@.len() && "eot"@.len() != "json"@.len() && "eot"@.len() != "jpeg"@.len() && "eot"@.len() != "webp"@.len() && "eot"@.len() != "woff"@.len() && "eot"@.len() != "woff2"@.len());
            assert("eot"@ != "html"@ && "eot"@ != "htm"@ && "eot"@ != "css"@ && "eot"@ != "js"@ && "eot"@ != "mjs"@ && "eot"@ != "json"@ && "eot"@ != "xml"@ && "eot"@ != "txt"@ && "eot"@ != "png"@ && "eot"@ != "jpg"@ && "eot"@ != "jpeg"@ && "eot"@ != "gif"@ && "eot"@ != "svg"@ && "eot"@ != "webp"@ && "eot"@ != "ico"@ && "eot"@ != "woff"@ && "eot"@ != "woff2"@ && "eot"@ != "ttf"@ && "eot"@ != "otf"@);
        }
    }
    if e == "mp3"@ {
        assert(mime_of("mp3"@) == "audio/mpeg"@) by {
            assert("mp3"@[0] != "htm"@[0] && "mp3"@[0] != "css"@[0] && "mp3"@[1] != "mjs"@[1] && "mp3"@[0] != "xml"@[0] && "mp3"@[0] != "txt"@[0] && "mp3"@[0] != "png"@[0] && "mp3"@[0] != "jpg"@[0] && "mp3"@[0] != "gif"@[0] && "mp3"@[0] != "svg"@[0] && "mp3"@[0] != "ico"@[0] && "mp3"@[0] != "ttf"@[0] && "mp3"@[0] != "otf"@[0] && "mp3"@[0] != "eot"@[0]);
            assert("mp3"@.len() != "html"@.len() && "mp3"@.len() != "js"@.len() && "mp3"@.len() != "json"@.len() && "mp3"@.len() != "jpeg"@.len() && "mp3"@.len() != "webp"@.len() && "mp3"@.len() != "woff"@.len() && "mp3"@.len() != "woff2"@.len());
            assert("mp3"@ != "html"@ && "mp3"@ != "htm"@ && "mp3"@ != "css"@ && "mp3"@ != "js"@ && "mp3"@ != "mjs"@ && "mp3"@ != "json"@ && "mp3"@ != "xml"@ && "mp3"@ != "txt"@ && "mp3"@ != "png"@ && "mp3"@ != "jpg"@ && "mp3"@ != "jpeg"@ && "mp3"@ != "gif"@ && "mp3"@ != "svg"@ && "mp3"@ != "webp"@ && "mp3"@ != "ico"@ && "mp3"@ != "woff"@ && "mp3"@ != "woff2"@ && "mp3"@ != "ttf"@ && "mp3"@ != "otf"@ && "mp3"@ != "eot"@);
        }
    }
    if e == "mp4"@ {
        assert(mime_of("mp4"@) == "video/mp4"@) by {
            assert("mp4"@[0] != "htm"@[0] && "mp4"@[0] != "css"@[0] && "mp4"@[1] != "mjs"@[1] && "mp4"@[0] != "xml"@[0] && "mp4"@[0] != "txt"@[0] && "mp4"@[0] != "png"@[0] && "mp4"@[0] != "jpg"@[0] && "mp4"@[0] != "gif"@[0] && "mp4"@[0] != "svg"@[0] && "mp4"@[0] != "ico"@[0] && "mp4"@[0] != "ttf"@[0] && "mp4"@[0] != "otf"@[0] && "mp4"@[0] != "eot"@[0] && "mp4"@[2] != "mp3"@[2]);
            assert("mp4"@.len() != "html"@.len() && "mp4"@.len() != "js"@.len() && "mp4"@.len() != "json"@.len() && "mp4"@.len() != "jpeg"@.len() && "mp4"@.len() != "webp"@.len() && "mp4"@.len() != "woff"@.len() && "mp4"@.len() != "woff2"@.len());
            assert("mp4"@ != "html"@ && "mp4"@ != "htm"@ && "mp4"@ != "css"@ && "mp4"@ != "js"@ && "mp4"@ != "mjs"@ && "mp4"@ != "json"@ && "mp4"@ != "xml"@ && "mp4"@ != "txt"@ && "mp4"@ != "png"@ && "mp4"@ != "jpg"@ && "mp4"@ != "jpeg"@ && "mp4"@ != "gif"@ && "mp4"@ != "svg"@ && "mp4"@ != "webp"@ && "mp4"@ != "ico"@ && "mp4"@ != "woff"@ && "mp4"@ != "woff2"@ && "mp4"@ != "ttf"@ && "mp4"@ != "otf"@ && "mp4"@ != "eot"@ && "mp4"@ != "mp3"@);
        }
    }
    if e == "webm"@ {
        assert(mime_of("webm"@) == "video/webm"@) by {
            assert("webm"@[0] != "html"@[0] && "webm"@[0] != "json"@[0] && "webm"@[0] != "jpeg"@[0] && "webm"@[3] != "webp"@[3] && "webm"@[1] != "woff"@[1]);
            assert("webm"@.len() != "htm"@.len() && "webm"@.len() != "css"@.len() && "webm"@.len() != "js"@.len() && "webm"@.len() != "mjs"@.len() && "webm"@.len() != "xml"@.len() && "webm"@.len() != "txt"@.len() && "webm"@.len() != "png"@.len() && "webm"@.len() != "jpg"@.len() && "webm"@.len() != "gif"@.len() && "webm"@.len() != "svg"@.len() && "webm"@.len() != "ico"@.len() && "webm"@.len() != "woff2"@.len() && "webm"@.len() != "ttf"@.len() && "webm"@.len() != "otf"@.len() && "webm"@.len() != "eot"@.len() && "webm"@.len() != "mp3"@.len() && "webm"@.len() != "mp4"@.len());
            assert("webm"@ != "html"@ && "webm"@ != "htm"@ && "webm"@ != "css"@ && "webm"@ != "js"@ && "webm"@ != "mjs"@ && "webm"@ != "json"@ && "webm"@ != "xml"@ && "webm"@ != "txt"@ && "webm"@ != "png"@ && "webm"@ != "jpg"@ && "webm"@ != "jpeg"@ && "webm"@ != "gif"@ && "webm"@ != "svg"@ && "webm"@ != "webp"@ && "webm"@ != "ico"@ && "webm"@ != "woff"@ && "webm"@ != "woff2"@ && "webm"@ != "ttf"@ && "webm"@ != "otf"@ && "webm"@ != "eot"@ && "webm"@ != "mp3"@ && "webm"@ != "mp4"@);
        }
    }
    if e == "ogg"@ {
        assert(mime_of("ogg"@) == "audio/ogg"@) by {
            assert("ogg"@[0] != "htm"@[0] && "ogg"@[0] != "css"@[0] && "ogg"@[0] != "mjs"@[0] && "ogg"@[0] != "xml"@[0] && "ogg"@[0] != "txt"@[0] && "ogg"@[0] != "png"@[0] && "ogg"@[0] != "jpg"@[0] && "ogg"@[0] != "gif"@[0] && "ogg"@[0] != "svg"@[0] && "ogg"@[0] != "ico"@[0] && "ogg"@[0] != "ttf"@[0] && "ogg"@[1] != "otf"@[1] && "ogg"@[0] != "eot"@[0] && "ogg"@[0] != "mp3"@[0] && "ogg"@[0] != "mp4"@[0]);
            assert("ogg"@.len() != "html"@.len() && "ogg"@.len() != "js"@.len() && "ogg"@.len() != "json"@.len() && "ogg"@.len() != "jpeg"@.len() && "ogg"@.len() != "webp"@.len() && "ogg"@.len() != "woff"@.len() && "ogg"@.len() != "woff2"@.len() && "ogg"@.len() != "webm"@.len());
            assert("ogg"@ != "html"@ && "ogg"@ != "htm"@ && "ogg"@ != "css"@ && "ogg"@ != "js"@ && "ogg"@ != "mjs"@ && "ogg"@ != "json"@ && "ogg"@ != "xml"@ && "ogg"@ != "txt"@ && "ogg"@ != "png"@ && "ogg"@ != "jpg"@ && "ogg"@ != "jpeg"@ && "ogg"@ != "gif"@ && "ogg"@ != "svg"@ && "ogg"@ != "webp"@ && "ogg"@ != "ico"@ && "ogg"@ != "woff"@ && "ogg"@ != "woff2"@ && "ogg"@ != "ttf"@ && "ogg"@ != "otf"@ && "ogg"@ != "eot"@ && "ogg"@ != "mp3"@ && "ogg"@ != "mp4"@ && "ogg"@ != "webm"@);
        }
    }
    if e == "wav"@ {
        assert(mime_of("wav"@) == "audio/wav"@) by {
            assert("wav"@[0] != "htm"@[0] && "wav"@[0] != "css"@[0] && "wav"@[0] != "mjs"@[0] && "wav"@[0] != "xml"@[0] && "wav"@[0] != "txt"@[0] && "wav"@[0] != "png"@[0] && "wav"@[0] != "jpg"@[0] && "wav"@[0] != "gif"@[0] && "wav"@[0] != "svg"@[0] && "wav"@[0] != "ico"@[0] && "wav"@[0] != "ttf"@[0] && "wav"@[0] != "otf"@[0] && "wav"@[0] != "eot"@[0] && "wav"@[0] != "mp3"@[0] && "wav"@[0] != "mp4"@[0] && "wav"@[0] != "ogg"@[0]);
            assert("wav"@.len() != "html"@.len() && "wav"@.len() != "js"@.len() && "wav"@.len() != "json"@.len() && "wav"@.len() != "jpeg"@.len() && "wav"@.len() != "webp"@.len() && "wav"@.len() != "woff"@.len() && "wav"@.len() != "woff2"@.len() && "wav"@.len() != "webm"@.len());
            assert("wav"@ != "html"@ && "wav"@ != "htm"@ && "wav"@ != "css"@ && "wav"@ != "js"@ && "wav"@ != "mjs"@ && "wav"@ != "json"@ && "wav"@ != "xml"@ && "wav"@ != "txt"@ && "wav"@ != "png"@ && "wav"@ != "jpg"@ && "wav"@ != "jpeg"@ && "wav"@ != "gif"@ && "wav"@ != "svg"@ && "wav"@ != "webp"@ && "wav"@ != "ico"@ && "wav"@ != "woff"@ && "wav"@ != "woff2"@ && "wav"@ != "ttf"@ && "wav"@ != "otf"@ && "wav"@ != "eot"@ && "wav"@ != "mp3"@ && "wav"@ != "mp4"@ && "wav"@ != "webm"@ && "wav"@ != "ogg"@);
        }
    }
    if e == "pdf"@ {
        assert(mime_of("pdf"@) == "application/pdf"@) by {
            assert("pdf"@[0] != "htm"@[0] && "pdf"@[0] != "css"@[0] && "pdf"@[0] != "mjs"@[0] && "pdf"@[0] != "xml"@[0] && "pdf"@[0] != "txt"@[0] && "pdf"@[1] != "png"@[1] && "pdf"@[0] != "jpg"@[0] && "pdf"@[0] != "gif"@[0] && "pdf"@[0] != "svg"@[0] && "pdf"@[0] != "ico"@[0] && "pdf"@[0] != "ttf"@[0] && "pdf"@[0] != "otf"@[0] && "pdf"@[0] != "eot"@[0] && "pdf"@[0] != "mp3"@[0] && "pdf"@[0] != "mp4"@[0] && "pdf"@[0] != "ogg"@[0] && "pdf"@[0] != "wav"@[0]);
            assert("pdf"@.len() != "html"@.len() && "pdf"@.len() != "js"@.len() && "pdf"@.len() != "json"@.len() && "pdf"@.len() != "jpeg"@.len() && "pdf"@.len() != "webp"@.len() && "pdf"@.len() != "woff"@.len() && "pdf"@.len() != "woff2"@.len() && "pdf"@.len() != "webm"@.len());
            assert("pdf"@ != "html"@ && "pdf"@ != "htm"@ && "pdf"@ != "css"@ && "pdf"@ != "js"@ && "pdf"@ != "mjs"@ && "pdf"@ != "json"@ && "pdf"@ != "xml"@ && "pdf"@ != "txt"@ && "pdf"@ != "png"@ && "pdf"@ != "jpg"@ && "pdf"@ != "jpeg"@ && "pdf"@ != "gif"@ && "pdf"@ != "svg"@ && "pdf"@ != "webp"@ && "pdf"@ != "ico"@ && "pdf"@ != "woff"@ && "pdf"@ != "woff2"@ && "pdf"@ != "ttf"@ && "pdf"@ != "otf"@ && "pdf"@ != "eot"@ && "pdf"@ != "mp3"@ && "pdf"@ != "mp4"@ && "pdf"@ != "webm"@ && "pdf"@ != "ogg"@ && "pdf"@ != "wav"@);
        }
    }
    if e == "zip"@ {
        assert(mime_of("zip"@) == "application/zip"@) by {
            assert("zip"@[0] != "htm"@[0] && "zip"@[0] != "css"@[0] && "zip"@[0] != "mjs"@[0] && "zip"@[0] != "xml"@[0] && "zip"@[0] != "txt"@[0] && "zip"@[0] != "png"@[0] && "zip"@[0] != "jpg"@[0] && "zip"@[0] != "gif"@[0] && "zip"@[0] != "svg"@[0] && "zip"@[0] != "ico"@[0] && "zip"@[0] != "ttf"@[0] && "zip"@[0] != "otf"@[0] && "zip"@[0] != "eot"@[0] && "zip"@[0] != "mp3"@[0] && "zip"@[0] != "mp4"@[0] && "zip"@[0] != "ogg"@[0] && "zip"@[0] != "wav"@[0] && "zip"@[0] != "pdf"@[0]);
            assert("zip"@.len() != "html"@.len() && "zip"@.len() != "js"@.len() && "zip"@.len() != "json"@.len() && "zip"@.len() != "jpeg"@.len() && "zip"@.len() != "webp"@.len() && "zip"@.len() != "woff"@.len() && "zip"@.len() != "woff2"@.len() && "zip"@.len() != "webm"@.len());
            assert("zip"@ != "html"@ && "zip"@ != "htm"@ && "zip"@ != "css"@ && "zip"@ != "js"@ && "zip"@ != "mjs"@ && "zip"@ != "json"@ && "zip"@ != "xml"@ && "zip"@ != "txt"@ && "zip"@ != "png"@ && "zip"@ != "jpg"@ && "zip"@ != "jpeg"@ && "zip"@ != "gif"@ && "zip"@ != "svg"@ && "zip"@ != "webp"@ && "zip"@ != "ico"@ && "zip"@ != "woff"@ && "zip"@ != "woff2"@ && "zip"@ != "ttf"@ && "zip"@ != "otf"@ && "zip"@ != "eot"@ && "zip"@ != "mp3"@ && "zip"@ != "mp4"@ && "zip"@ != "webm"@ && "zip"@ != "ogg"@ && "zip"@ != "wav"@ && "zip"@ != "pdf"@);
        }
    }
    if e == "gz"@ {
        assert(mime_of("gz"@) == "application/gzip"@) by {
            assert("gz"@[0] != "js"@[0]);
            assert("gz"@.len() != "html"@.len() && "gz"@.len() != "htm"@.len() && "gz"@.len() != "css"@.len() && "gz"@.len() != "mjs"@.len() && "gz"@.len() != "json"@.len() && "gz"@.len() != "xml"@.len() && "gz"@.len() != "txt"@.len() && "gz"@.len() != "png"@.len() && "gz"@.len() != "jpg"@.len() && "gz"@.len() != "jpeg"@.len() && "gz"@.len() != "gif"@.len() && "gz"@.len() != "svg"@.len() && "gz"@.len() != "webp"@.len() && "gz"@.len() != "ico"@.len() && "gz"@.len() != "woff"@.len() && "gz"@.len() != "woff2"@.len() && "gz"@.len() != "ttf"@.len() && "gz"@.len() != "otf"@.len() && "gz"@.len() != "eot"@.len() && "gz"@.len() != "mp3"@.len() && "gz"@.len() != "mp4"@.len() && "gz"@.len() != "webm"@.len() && "gz"@.len() != "ogg"@.len() && "gz"@.len() != "wav"@.len() && "gz"@.len() != "pdf"@.len() && "gz"@.len() != "zip"@.len());
            assert("gz"@ != "html"@ && "gz"@ != "htm"@ && "gz"@ != "css"@ && "gz"@ != "js"@ && "gz"@ != "mjs"@ && "gz"@ != "json"@ && "gz"@ != "xml"@ && "gz"@ != "txt"@ && "gz"@ != "png"@ && "gz"@ != "jpg"@ && "gz"@ != "jpeg"@ && "gz"@ != "gif"@ && "gz"@ != "svg"@ && "gz"@ != "webp"@ && "gz"@ != "ico"@ && "gz"@ != "woff"@ && "gz"@ != "woff2"@ && "gz"@ != "ttf"@ && "gz"@ != "otf"@ && "gz"@ != "eot"@ && "gz"@ != "mp3"@ && "gz"@ != "mp4"@ && "gz"@ != "webm"@ && "gz"@ != "ogg"@ && "gz"@ != "wav"@ && "gz"@ != "pdf"@ && "gz"@ != "zip"@);
        }
    }
    if e == "gzip"@ {
        assert(mime_of("gzip"@) == "application/gzip"@) by {
            assert("gzip"@[0] != "html"@[0] && "gzip"@[0] != "json"@[0] && "gzip"@[0] != "jpeg"@[0] && "gzip"@[0] != "webp"@[0] && "gzip"@[0] != "woff"@[0] && "gzip"@[0] != "webm"@[0]);
            assert("gzip"@.len() != "htm"@.len() && "gzip"@.len() != "css"@.len() && "gzip"@.len() != "js"@.len() && "gzip"@.len() != "mjs"@.len() && "gzip"@.len() != "xml"@.len() && "gzip"@.len() != "txt"@.len() && "gzip"@.len() != "png"@.len() && "gzip"@.len() != "jpg"@.len() && "gzip"@.len() != "gif"@.len() && "gzip"@.len() != "svg"@.len() && "gzip"@.len() != "ico"@.len() && "gzip"@.len() != "woff2"@.len() && "gzip"@.len() != "ttf"@.len() && "gzip"@.len() != "otf"@.len() && "gzip"@.len() != "eot"@.len() && "gzip"@.len() != "mp3"@.len() && "gzip"@.len() != "mp4"@.len() && "gzip"@.len() != "ogg"@.len() && "gzip"@.len() != "wav"@.len() && "gzip"@.len() != "pdf"@.len() && "gzip"@.len() != "zip"@.len() && "gzip"@.len() != "gz"@.len());
            assert("gzip"@ != "html"@ && "gzip"@ != "htm"@ && "gzip"@ != "css"@ && "gzip"@ != "js"@ && "gzip"@ != "mjs"@ && "gzip"@ != "json"@ && "gzip"@ != "xml"@ && "gzip"@ != "txt"@ && "gzip"@ != "png"@ && "gzip"@ != "jpg"@ && "gzip"@ != "jpeg"@ && "gzip"@ != "gif"@ && "gzip"@ != "svg"@ && "gzip"@ != "webp"@ && "gzip"@ != "ico"@ && "gzip"@ != "woff"@ && "gzip"@ != "woff2"@ && "gzip"@ != "ttf"@ && "gzip"@ != "otf"@ && "gzip"@ != "eot"@ && "gzip"@ != "mp3"@ && "gzip"@ != "mp4"@ && "gzip"@ != "webm"@ && "gzip"@ != "ogg"@ && "gzip"@ != "wav"@ && "gzip"@ != "pdf"@ && "gzip"@ != "zip"@ && "gzip"@ != "gz"@);
        }
    }
    if e == "wasm"@ {
        assert(mime_of("wasm"@) == "application/wasm"@) by {
            assert("wasm"@[0] != "html"@[0] && "wasm"@[0] != "json"@[0] && "wasm"@[0] != "jpeg"@[0] && "wasm"@[1] != "webp"@[1] && "wasm"@[1] != "woff"@[1] && "wasm"@[1] != "webm"@[1] && "wasm"@[0] != "gzip"@[0]);
            assert("wasm"@.len() != "htm"@.len() && "wasm"@.len() != "css"@.len() && "wasm"@.len() != "js"@.len() && "wasm"@.len() != "mjs"@.len() && "wasm"@.len() != "xml"@.len() && "wasm"@.len() != "txt"@.len() && "wasm"@.len() != "png"@.len() && "wasm"@.len() != "jpg"@.len() && "wasm"@.len() != "gif"@.len() && "wasm"@.len() != "svg"@.len() && "wasm"@.len() != "ico"@.len() && "wasm"@.len() != "woff2"@.len() && "wasm"@.len() != "ttf"@.len() && "wasm"@.len() != "otf"@.len() && "wasm"@.len() != "eot"@.len() && "wasm"@.len() != "mp3"@.len() && "wasm"@.len() != "mp4"@.len() && "wasm"@.len() != "ogg"@.len() && "wasm"@.len() != "wav"@.len() && "wasm"@.len() != "pdf"@.len() && "wasm"@.len() != "zip"@.len() && "wasm"@.len() != "gz"@.len());
            assert("wasm"@ != "html"@ && "wasm"@ != "htm"@ && "wasm"@ != "css"@ && "wasm"@ != "js"@ && "wasm"@ != "mjs"@ && "wasm"@ != "json"@ && "wasm"@ != "xml"@ && "wasm"@ != "txt"@ && "wasm"@ != "png"@ && "wasm"@ != "jpg"@ && "wasm"@ != "jpeg"@ && "wasm"@ != "gif"@ && "wasm"@ != "svg"@ && "wasm"@ != "webp"@ && "wasm"@ != "ico"@ && "wasm"@ != "woff"@ && "wasm"@ != "woff2"@ && "wasm"@ != "ttf"@ && "wasm"@ != "otf"@ && "wasm"@ != "eot"@ && "wasm"@ != "mp3"@ && "wasm"@ != "mp4"@ && "wasm"@ != "webm"@ && "wasm"@ != "ogg"@ && "wasm"@ != "wav"@ && "wasm"@ != "pdf"@ && "wasm"@ != "zip"@ && "wasm"@ != "gz"@ && "wasm"@ != "gzip"@);
        }
    }
    if e == "map"@ {
        assert(mime_of("map"@) == "application/json"@) by {
            assert("map"@[0] != "htm"@[0] && "map"@[0] != "css"@[0] && "map"@[1] != "mjs"@[1] && "map"@[0] != "xml"@[0] && "map"@[0] != "txt"@[0] && "map"@[0] != "png"@[0] && "map"@[0] != "jpg"@[0] && "map"@[0] != "gif"@[0] && "map"@[0] != "svg"@[0] && "map"@[0] != "ico"@[0] && "map"@[0] != "ttf"@[0] && "map"@[0] != "otf"@[0] && "map"@[0] != "eot"@[0] && "map"@[1] != "mp3"@[1] && "map"@[1] != "mp4"@[1] && "map"@[0] != "ogg"@[0] && "map"@[0] != "wav"@[0] && "map"@[0] != "pdf"@[0] && "map"@[0] != "zip"@[0]);
            assert("map"@.len() != "html"@.len() && "map"@.len() != "js"@.len() && "map"@.len() != "json"@.len() && "map"@.len() != "jpeg"@.len() && "map"@.len() != "webp"@.len() && "map"@.len() != "woff"@.len() && "map"@.len() != "woff2"@.len() && "map"@.len() != "webm"@.len() && "map"@.len() != "gz"@.len() && "map"@.len() != "gzip"@.len() && "map"@.len() != "wasm"@.len());
            assert("map"@ != "html"@ && "map"@ != "htm"@ && "map"@ != "css"@ && "map"@ != "js"@ && "map"@ != "mjs"@ && "map"@ != "json"@ && "map"@ != "xml"@ && "map"@ != "txt"@ && "map"@ != "png"@ && "map"@ != "jpg"@ && "map"@ != "jpeg"@ && "map"@ != "gif"@ && "map"@ != "svg"@ && "map"@ != "webp"@ && "map"@ != "ico"@ && "map"@ != "woff"@ && "map"@ != "woff2"@ && "map"@ != "ttf"@ && "map"@ != "otf"@ && "map"@ != "eot"@ && "map"@ != "mp3"@ && "map"@ != "mp4"@ && "map"@ != "webm"@ && "map"@ != "ogg"@ && "map"@ != "wav"@ && "map"@ != "pdf"@ && "map"@ != "zip"@ && "map"@ != "gz"@ && "map"@ != "gzip"@ && "map"@ != "wasm"@);
        }
    }
    assert((e != "html"@ && e != "htm"@ && e != "css"@ && e != "js"@ && e != "mjs"@ && e != "json"@ && e != "xml"@ && e != "txt"@ && e != "png"@ && e != "jpg"@ && e != "jpeg"@ && e != "gif"@ && e != "svg"@ && e != "webp"@ && e != "ico"@ && e != "woff"@ && e != "woff2"@ && e != "ttf"@ && e != "otf"@ && e != "eot"@ && e != "mp3"@ && e != "mp4"@ && e != "webm"@ && e != "ogg"@ && e != "wav"@ && e != "pdf"@ && e != "zip"@ && e != "gz"@ && e != "gzip"@ && e != "wasm"@ && e != "map"@) ==> mime_of(e) == "application/octet-stream"@);
}

/// The static extensions, as a fixed list: a path is a static file
/// exactly when its lower-cased extension is one of `css`, `js`, `mjs`,
/// `json`, `xml`, `txt`, `png`, `jpg`, `jpeg`, `gif`, `svg`, `webp`,
/// `ico`, `woff`, `woff2`, `ttf`, `otf`, `eot`, `mp3`, `mp4`, `webm`,
/// `ogg`, `wav`, `pdf`, `zip`, `gz`, `wasm`, `map`, `html`, `htm`.
pub proof fn lemma_static_list(path: Seq<char>)
    ensures
        ({
            let e = lowercase(path_extension(path));
            static_extension(e) <==> (e == "css"@ || e == "js"@ || e == "mjs"@ || e == "json"@ || e == "xml"@ || e == "txt"@ || e == "png"@ || e == "jpg"@ || e == "jpeg"@ || e == "gif"@ || e == "svg"@ || e == "webp"@ || e == "ico"@ || e == "woff"@ || e == "woff2"@ || e == "ttf"@ || e == "otf"@ || e == "eot"@ || e == "mp3"@ || e == "mp4"@ || e == "webm"@ || e == "ogg"@ || e == "wav"@ || e == "pdf"@ || e == "zip"@ || e == "gz"@ || e == "wasm"@ || e == "map"@ || e == "html"@ || e == "htm"@)
        }),
{
}

/// Lower-casing ASCII text: texts equal up to ASCII case lower-case to
/// the same text, and lower-casing twice gives what once gives.
pub proof fn lemma_lowercase_ascii(a: Seq<char>, b: Seq<char>)
    requires
        is_ascii_text(a),
        eq_ignore_ascii_case(a, b),
    ensures
        is_ascii_text(b),
        lowercase(a) == lowercase(b),
        is_ascii_text(lowercase(a)),
        lowercase(lowercase(a)) == lowercase(a),
{
    assert forall|i: int| 0 <= i < b.len() implies (#[trigger] b[i] as u32) < 128 by {
        assert(ascii_lower(a[i]) == ascii_lower(b[i]));
        assert((a[i] as u32) < 128);
    }
    assert(ascii_lowercase(a) =~= ascii_lowercase(b));
    let l = ascii_lowercase(a);
    assert forall|i: int| 0 <= i < l.len() implies (#[trigger] l[i] as u32) < 128 by {
        assert((a[i] as u32) < 128);
    }
    assert(ascii_lowercase(l) =~= l);
}

/// MIME detection ignores case: two ASCII extensions that differ only in
/// the case of their letters get the same MIME type and the same answer to
/// whether they are static; in particular an extension and its lower-case
/// form do.
pub proof fn lemma_mime_case_insensitive(a: Seq<char>, b: Seq<char>)
    requires
        is_ascii_text(a),
        eq_ignore_ascii_case(a, b),
    ensures
        mime_of(lowercase(a)) == mime_of(lowercase(b)),
        static_extension(lowercase(a)) == static_extension(lowercase(b)),
        mime_of(lowercase(a)) == mime_of(lowercase(lowercase(a))),
{
    lemma_lowercase_ascii(a, b);
}

/// A static file always has a MIME type of its own, and a path without an
/// extension is never a static file.
pub proof fn lemma_static_paths(path: Seq<char>)
    ensures
        static_extension(lowercase(path_extension(path))) ==> mime_of(
            lowercase(path_extension(path)),
        ) != "application/octet-stream"@,
        path_extension(path).len() == 0 ==> !static_extension(lowercase(path_extension(path))),
{
    let e = lowercase(path_extension(path));
    lemma_mime_known(e);
    if path_extension(path).len() == 0 {
        assert(ascii_lowercase(path_extension(path)) =~= Seq::<char>::empty());
        reveal_strlit("css");
        reveal_strlit("js");
        reveal_strlit("mjs");
        reveal_strlit("json");
        reveal_strlit("xml");
        reveal_strlit("txt");
        reveal_strlit("png");
        reveal_strlit("jpg");
        reveal_strlit("jpeg");
        reveal_strlit("gif");
        reveal_strlit("svg");
        reveal_strlit("webp");
        reveal_strlit("ico");
        reveal_strlit("woff");
        reveal_strlit("woff2");
        reveal_strlit("ttf");
        reveal_strlit("otf");
        reveal_strlit("eot");
        reveal_strlit("mp3");
        reveal_strlit("mp4");
        reveal_strlit("webm");
        reveal_strlit("ogg");
        reveal_strlit("wav");
        reveal_strlit("pdf");
        reveal_strlit("zip");
        reveal_strlit("gz");
        reveal_strlit("wasm");
        reveal_strlit("map");
        reveal_strlit("html");
        reveal_strlit("htm");
    }
}

/// `Path::new(base).join(tail)` on Unix, as text: an absolute tail (one
/// that begins with `/`) replaces the base; otherwise the base, then a `/`
/// unless the base is empty or already ends in `/`, then the tail.
pub open spec fn joined_path(base: Seq<char>, tail: Seq<char>) -> Seq<char> {
    if tail.len() > 0 && tail[0] == '/' {
        tail
    } else if base.len() == 0 || base.last() == '/' {
        base + tail
    } else {
        base + seq!['/'] + tail
    }
}

/// Joins two Unix paths (see `joined_path`).
fn path_join(base: &str, tail: &str) -> (r: String)
    ensures
        r@ == joined_path(base@, tail@),
{
    let b = chars_of(base);
    let t = chars_of(tail);
    if t.len() > 0 && t[0] == '/' {
        return string_of_chars(&t);
    }
    let mut s = string_of_chars(&b);
    if !(b.len() == 0 || b[b.len() - 1] == '/') {
        push_char(&mut s, '/');
    }
    push_str(&mut s, tail);
    s
}

/// The last component of a Unix path as text: what follows its last `/`.
pub open spec fn last_piece(path: Seq<char>) -> Seq<char> {
    path.subrange(last_index_of(path, '/') + 1, path.len() as int)
}

/// A path whose text ends in a plain file name: a last component that is
/// not empty and has no `.` in it (so it is neither `.` nor `..`, and has
/// no extension yet).
pub open spec fn ends_in_plain_name(path: Seq<char>) -> bool {
    &&& last_piece(path).len() > 0
    &&& last_index_of(last_piece(path), '.') == -1
}

/// What `Path::with_extension` makes of a path that does not end in a
/// plain file name (std's rule on the file name's last dot).
pub uninterp spec fn std_with_extension(path: Seq<char>, ext: Seq<char>) -> Seq<char>;

/// `Path::new(path).with_extension(ext)` as text. For a path ending in a
/// plain file name, std documents that the extension is added: the path,
/// a `.` and the extension (the path unchanged for an empty extension).
pub open spec fn path_with_extension_text(path: Seq<char>, ext: Seq<char>) -> Seq<char> {
    if ends_in_plain_name(path) {
        if ext.len() == 0 {
            path
        } else {
            path + seq!['.'] + ext
        }
    } else {
        std_with_extension(path, ext)
    }
}

/// `Path::new(path).with_extension(ext)`, as text. std panics when the
/// extension holds a path separator, so `ext` has no `/`. For a path ending
/// in a plain file name the extension is appended after a `.` (nothing
/// changes for an empty extension), as std documents; for other paths the
/// result of std's rule is only named.
#[verifier::external_body]
fn path_with_extension(path: &str, ext: &str) -> (r: String)
    requires
        forall|i: int| 0 <= i < ext@.len() ==> ext@[i] != '/',
    ensures
        ends_in_plain_name(path@) && ext@.len() == 0 ==> r@ == path@,
        ends_in_plain_name(path@) && ext@.len() > 0 ==> r@ == path@ + seq!['.'] + ext@,
        !ends_in_plain_name(path@) ==> r@ == std_with_extension(path@, ext@),
{
    std::path::Path::new(path).with_extension(ext).to_string_lossy().into_owned()
}

/// The file a static request names: the document root joined with the
/// request path without its leading slashes, when that is a safe
/// sub-path; none otherwise (the request is then forbidden).
pub fn static_candidate(docroot: &str, uri: &str) -> (r: Option<String>)
    ensures
        match r {
            Some(p) => safe_subpath(trim_leading_slashes(uri@)) && p@ == joined_path(
                docroot@,
                trim_leading_slashes(uri@),
            ),
            None => !safe_subpath(trim_leading_slashes(uri@)),
        },
{
    match request_subpath(uri) {
        Some(sub) => Some(path_join(docroot, sub.as_str())),
        None => None,
    }
}

/// The files a PHP request may name, in the order they are tried: the
/// path itself, the path with the `.php` extension, and the `index.php`
/// inside it; none when the request path is not a safe sub-path.
pub open spec fn php_candidate_paths(docroot: Seq<char>, uri: Seq<char>) -> Option<Seq<Seq<char>>> {
    let sub = trim_leading_slashes(uri);
    if !safe_subpath(sub) {
        None
    } else {
        let base = joined_path(docroot, sub);
        Some(seq![base, path_with_extension_text(base, "php"@), joined_path(base, "index.php"@)])
    }
}

/// The files a PHP request may name (see `php_candidate_paths`).
pub fn php_file_candidates(docroot: &str, uri: &str) -> (r: Option<Vec<String>>)
    ensures
        match r {
            Some(v) => php_candidate_paths(docroot@, uri@) == Some(v@.map_values(|p: String| p@)),
            None => php_candidate_paths(docroot@, uri@) is None,
        },
{
    match request_subpath(uri) {
        None => None,
        Some(sub) => {
            let base = path_join(docroot, sub.as_str());
            proof {
                reveal_strlit("php");
            }
            let with_php = path_with_extension(base.as_str(), "php");
            let index = path_join(base.as_str(), "index.php");
            let mut v: Vec<String> = Vec::new();
            v.push(base);
            v.push(with_php);
            v.push(index);
            proof {
                let b = joined_path(docroot@, trim_leading_slashes(uri@));
                assert(v@.map_values(|p: String| p@) =~= seq![
                    b,
                    path_with_extension_text(b, "php"@),
                    joined_path(b, "index.php"@),
                ]);
            }
            Some(v)
        },
    }
}

/// The headers of a served static file: its MIME type, a year of public
/// caching, its ETag and, when known, its modification date.
pub open spec fn static_header_list(
    mime: Seq<char>,
    etag: Seq<char>,
    last_modified: Option<Seq<char>>,
) -> Seq<(Seq<char>, Seq<char>)> {
    seq![
        ("content-type"@, mime),
        ("cache-control"@, "public, max-age=31536000"@),
        ("etag"@, etag),
    ] + match last_modified {
        Some(d) => seq![("last-modified"@, d)],
        None => seq![],
    }
}

/// The headers of a served static file (see `static_header_list`).
pub fn static_file_headers(mime: &str, etag: &str, last_modified: Option<&str>) -> (r: Vec<(String, String)>)
    ensures
        pair_texts(r@) == static_header_list(
            mime@,
            etag@,
            match last_modified {
                Some(d) => Some(d@),
                None => None,
            },
        ),
{
    let mut out: Vec<(String, String)> = Vec::new();
    push_header(&mut out, "content-type", mime);
    push_header(&mut out, "cache-control", "public, max-age=31536000");
    push_header(&mut out, "etag", etag);
    match last_modified {
        Some(d) => push_header(&mut out, "last-modified", d),
        None => {},
    }
    assert(pair_texts(out@) =~= static_header_list(
        mime@,
        etag@,
        match last_modified {
            Some(d) => Some(d@),
            None => None,
        },
    ));
    out
}

/// The headers of a served static file of `size` bytes modified at
/// `modified_secs` (seconds since the epoch): its ETag is built from the
/// size and the modification time, and its modification date is the HTTP
/// date of that time, left out where it cannot be rendered. They depend on
/// nothing else, so an unchanged file is always served with the same ones.
pub fn static_file_headers_at(mime: &str, size: u64, modified_secs: i64) -> (r: Vec<(String, String)>)
    ensures
        pair_texts(r@) == static_header_list(
            mime@,
            etag_text(size, modified_secs),
            http_date_text(modified_secs as int),
        ),
{
    let tag = etag(size, modified_secs);
    match http_date_at(modified_secs) {
        Some(d) => static_file_headers(mime, tag.as_str(), Some(d.as_str())),
        None => static_file_headers(mime, tag.as_str(), None),
    }
}

/// The finished pieces of a Unix path read up to its end, and the piece
/// being read: `/` ends a piece; empty pieces and `.` are dropped.
pub open spec fn pieces_acc(s: Seq<u8>) -> (Seq<Seq<u8>>, Seq<u8>)
    decreases s.len(),
{
    if s.len() == 0 {
        (seq![], seq![])
    } else {
        let (done, cur) = pieces_acc(s.drop_last());
        if s.last() == 0x2fu8 {
            (keep_piece(done, cur), seq![])
        } else {
            (done, cur.push(s.last()))
        }
    }
}

/// Adds a finished piece unless it is empty or `.`.
pub open spec fn keep_piece(done: Seq<Seq<u8>>, cur: Seq<u8>) -> Seq<Seq<u8>> {
    if cur.len() == 0 || cur == seq![0x2eu8] {
        done
    } else {
        done.push(cur)
    }
}

/// The components of a Unix path as `Path::components` gives them: a root
/// (written `/`) when the path begins with `/`, a current directory
/// (written `.`) when a relative path begins with the piece `.`, then
/// every piece between `/` that is neither empty nor `.`.
pub open spec fn path_components(s: Seq<u8>) -> Seq<Seq<u8>> {
    let (done, cur) = pieces_acc(s);
    let head: Seq<Seq<u8>> = if s.len() > 0 && s[0] == 0x2fu8 {
        seq![seq![0x2fu8]]
    } else if s.len() > 0 && s[0] == 0x2eu8 && (s.len() == 1 || s[1] == 0x2fu8) {
        seq![seq![0x2eu8]]
    } else {
        seq![]
    };
    head + keep_piece(done, cur)
}

/// `path` lies under `base`, as `Path::starts_with` decides it: the
/// components of `base` begin the components of `path`.
pub open spec fn path_starts_with(path: Seq<u8>, base: Seq<u8>) -> bool {
    let p = path_components(path);
    let b = path_components(base);
    b.len() <= p.len() && p.subrange(0, b.len() as int) == b
}

/// The components of a Unix path (see `path_components`).
fn components_of(s: &[u8]) -> (r: Vec<Vec<u8>>)
    ensures
        r@.map_values(|c: Vec<u8>| c@) == path_components(s@),
{
    let mut out: Vec<Vec<u8>> = Vec::new();
    let n = s.len();
    let ghost head: Seq<Seq<u8>> = if s@.len() > 0 && s@[0] == 0x2fu8 {
        seq![seq![0x2fu8]]
    } else if s@.len() > 0 && s@[0] == 0x2eu8 && (s@.len() == 1 || s@[1] == 0x2fu8) {
        seq![seq![0x2eu8]]
    } else {
        seq![]
    };
    if n > 0 && s[0] == 0x2f {
        let mut root: Vec<u8> = Vec::new();
        root.push(0x2f);
        out.push(root);
        assert(out@.map_values(|c: Vec<u8>| c@) =~= head);
    } else if n > 0 && s[0] == 0x2e && (n == 1 || s[1] == 0x2f) {
        let mut dot: Vec<u8> = Vec::new();
        dot.push(0x2e);
        out.push(dot);
        assert(out@.map_values(|c: Vec<u8>| c@) =~= head);
    } else {
        assert(out@.map_values(|c: Vec<u8>| c@) =~= head);
    }
    let mut cur: Vec<u8> = Vec::new();
    assert(s@.take(0) =~= Seq::<u8>::empty());
    assert(out@.map_values(|c: Vec<u8>| c@) =~= head + pieces_acc(s@.take(0)).0);
    for i in 0..n
        invariant
            n == s@.len(),
            head == (if s@.len() > 0 && s@[0] == 0x2fu8 {
                seq![seq![0x2fu8]]
            } else if s@.len() > 0 && s@[0] == 0x2eu8 && (s@.len() == 1 || s@[1] == 0x2fu8) {
                seq![seq![0x2eu8]]
            } else {
                seq![]
            }),
            out@.map_values(|c: Vec<u8>| c@) == head + pieces_acc(s@.take(i as int)).0,
            cur@ == pieces_acc(s@.take(i as int)).1,
    {
        let ghost pre = s@.take(i as int);
        assert(s@.take(i + 1).drop_last() =~= pre);
        assert(s@.take(i + 1).last() == s@[i as int]);
        let b = s[i];
        if b == 0x2f {
            if cur.len() == 0 || (cur.len() == 1 && cur[0] == 0x2e) {
                proof {
                    if cur@.len() == 1 && cur@[0] == 0x2eu8 {
                        assert(cur@ =~= seq![0x2eu8]);
                    }
                }
            } else {
                proof {
                    if cur@ == seq![0x2eu8] {
                        assert(cur@.len() == 1 && cur@[0] == 0x2eu8);
                    }
                }
                let ghost piece = cur@;
                let ghost before = out@.map_values(|c: Vec<u8>| c@);
                out.push(cur);
                assert(out@.map_values(|c: Vec<u8>| c@) =~= before.push(piece));
                assert(out@.map_values(|c: Vec<u8>| c@) =~= head + pieces_acc(pre).0.push(piece));
                cur = Vec::new();
            }
            cur = Vec::new();
            assert(out@.map_values(|c: Vec<u8>| c@) =~= head + pieces_acc(s@.take(i + 1)).0);
        } else {
            cur.push(b);
        }
    }
    assert(s@.take(n as int) =~= s@);
    if cur.len() == 0 || (cur.len() == 1 && cur[0] == 0x2e) {
        proof {
            if cur@.len() == 1 && cur@[0] == 0x2eu8 {
                assert(cur@ =~= seq![0x2eu8]);
            }
        }
        assert(out@.map_values(|c: Vec<u8>| c@) =~= path_components(s@));
    } else {
        proof {
            if cur@ == seq![0x2eu8] {
                assert(cur@.len() == 1 && cur@[0] == 0x2eu8);
            }
        }
        let ghost before = out@.map_values(|c: Vec<u8>| c@);
        out.push(cur);
        assert(out@.map_values(|c: Vec<u8>| c@) =~= before.push(pieces_acc(s@).1));
        assert(out@.map_values(|c: Vec<u8>| c@) =~= path_components(s@));
    }
    out
}

/// Whether two byte strings are equal.
fn bytes_eq(a: &Vec<u8>, b: &Vec<u8>) -> (r: bool)
    ensures
        r == (a@ == b@),
{
    if a.len() != b.len() {
        return false;
    }
    let n = a.len();
    for i in 0..n
        invariant
            n == a@.len() == b@.len(),
            forall|j: int| 0 <= j < i ==> a@[j] == b@[j],
    {
        if a[i] != b[i] {
            return false;
        }
    }
    assert(a@ =~= b@);
    true
}

/// Whether `path` lies under `base` (see `path_starts_with`); used to
/// keep resolved files inside the document root.
pub fn path_within(path: &[u8], base: &[u8]) -> (r: bool)
    ensures
        r == path_starts_with(path@, base@),
{
    let p = components_of(path);
    let b = components_of(base);
    let ghost pv = p@.map_values(|c: Vec<u8>| c@);
    let ghost bv = b@.map_values(|c: Vec<u8>| c@);
    assert(pv.len() == p@.len() && bv.len() == b@.len());
    if b.len() > p.len() {
        return false;
    }
    let m = b.len();
    for k in 0..m
        invariant
            m == b@.len() <= p@.len(),
            pv == p@.map_values(|c: Vec<u8>| c@),
            bv == b@.map_values(|c: Vec<u8>| c@),
            pv == path_components(path@),
            bv == path_components(base@),
            forall|j: int| 0 <= j < k ==> pv[j] == bv[j],
    {
        if !bytes_eq(&p[k], &b[k]) {
            assert(pv[k as int] == p@[k as int]@ && bv[k as int] == b@[k as int]@);
            assert(pv.subrange(0, m as int)[k as int] != bv[k as int]);
            return false;
        }
    }
    assert(pv.subrange(0, m as int) =~= bv);
    true
}

/// The ETag of a file of `size` bytes last modified at `modified_secs`
/// (seconds since the epoch): `"<size>-<seconds>"`, quotes included.
pub open spec fn etag_text(size: u64, modified_secs: i64) -> Seq<char> {
    seq!['"'] + decimal(size as nat) + seq!['-'] + decimal_signed(modified_secs as int) + seq!['"']
}

/// The ETag of a file from its size and modification time (see
/// `etag_text`): the same file, unchanged, always gets the same tag.
pub fn etag(size: u64, modified_secs: i64) -> (r: String)
    ensures
        r@ == etag_text(size, modified_secs),
{
    let mut s = String::new();
    push_char(&mut s, '"');
    push_decimal(&mut s, size);
    push_char(&mut s, '-');
    let m = i64_to_string(modified_secs);
    push_str(&mut s, m.as_str());
    push_char(&mut s, '"');
    s
}

/// What the file system reports of one candidate file: whether it is a
/// regular file, then its canonical path and the canonical document root
/// (each `None` where it could not be had).
pub struct CandidateFacts {
    pub is_file: bool,
    pub canonical: Option<Vec<u8>>,
    pub canonical_root: Option<Vec<u8>>,
}

/// The canonical bytes of a reported path, if any.
pub open spec fn opt_bytes(o: Option<Vec<u8>>) -> Option<Seq<u8>> {
    match o {
        Some(v) => Some(v@),
        None => None,
    }
}

/// The file a candidate resolves to: its canonical path, when it is a
/// regular file whose canonical path lies inside the canonical document
/// root (no traversal, no symbolic link leading out); none otherwise.
pub open spec fn resolved_file(facts: CandidateFacts) -> Option<Seq<u8>> {
    if !facts.is_file {
        None
    } else {
        match (opt_bytes(facts.canonical), opt_bytes(facts.canonical_root)) {
            (Some(c), Some(root)) => if path_starts_with(c, root) {
                Some(c)
            } else {
                None
            },
            _ => None,
        }
    }
}

/// A copy of a byte string.
fn copy_bytes(v: &Vec<u8>) -> (r: Vec<u8>)
    ensures
        r@ == v@,
{
    let r = v.clone();
    assert(r@ =~= v@);
    r
}

/// The file a candidate resolves to (see `resolved_file`).
pub fn resolve_candidate(facts: &CandidateFacts) -> (r: Option<Vec<u8>>)
    ensures
        opt_bytes(r) == resolved_file(*facts),
{
    if !facts.is_file {
        return None;
    }
    match (&facts.canonical, &facts.canonical_root) {
        (Some(c), Some(root)) => {
            if path_within(c.as_slice(), root.as_slice()) {
                Some(copy_bytes(c))
            } else {
                None
            }
        },
        _ => None,
    }
}

/// The first of the candidates that resolves to a file (see
/// `resolved_file`), in order.
pub open spec fn first_resolved(facts: Seq<CandidateFacts>) -> Option<Seq<u8>>
    decreases facts.len(),
{
    if facts.len() == 0 {
        None
    } else {
        match resolved_file(facts[0]) {
            Some(c) => Some(c),
            None => first_resolved(facts.drop_first()),
        }
    }
}

/// The PHP file a request runs: none when the request path is not a safe
/// sub-path (nothing is looked up then); otherwise the first candidate of
/// `php_file_candidates`, in their order, that resolves to a regular file
/// inside the canonical document root, `facts[i]` being what the file
/// system reports of candidate `i`.
pub fn php_file_choice(docroot: &str, uri: &str, facts: &[CandidateFacts]) -> (r: Option<Vec<u8>>)
    ensures
        php_candidate_paths(docroot@, uri@) is None ==> r is None,
        php_candidate_paths(docroot@, uri@) is Some ==> opt_bytes(r) == first_resolved(facts@),
{
    if request_subpath(uri).is_none() {
        return None;
    }
    let mut i: usize = 0;
    assert(facts@.subrange(0, facts@.len() as int) =~= facts@);
    while i < facts.len()
        invariant
            i <= facts@.len(),
            php_candidate_paths(docroot@, uri@) is Some,
            first_resolved(facts@) == first_resolved(facts@.subrange(i as int, facts@.len() as int)),
        decreases facts@.len() - i,
    {
        let ghost rest = facts@.subrange(i as int, facts@.len() as int);
        assert(rest[0] == facts@[i as int]);
        match resolve_candidate(&facts[i]) {
            Some(c) => {
                return Some(c);
            },
            None => {},
        }
        assert(rest.drop_first() =~= facts@.subrange(i + 1, facts@.len() as int));
        i = i + 1;
    }
    assert(facts@.subrange(i as int, facts@.len() as int) =~= Seq::<CandidateFacts>::empty());
    None
}

/// How a static request is answered: refused, not found, or served from
/// the resolved file.
pub enum StaticOutcome {
    Forbidden,
    NotFound,
    Serve(Vec<u8>),
}

/// The answer to a static request: forbidden exactly when the request
/// path is not a safe sub-path (the file system is not consulted then);
/// otherwise the file that the candidate (see `static_candidate`)
/// resolves to, or not found when it resolves to none. A file is thus
/// served only when it is a regular file inside the canonical document
/// root.
pub fn static_outcome(docroot: &str, uri: &str, facts: &CandidateFacts) -> (r: StaticOutcome)
    ensures
        !safe_subpath(trim_leading_slashes(uri@)) <==> r is Forbidden,
        r matches StaticOutcome::Serve(p) ==> facts.is_file && match facts.canonical_root {
            Some(root) => path_starts_with(p@, root@),
            None => false,
        },
        safe_subpath(trim_leading_slashes(uri@)) ==> match r {
            StaticOutcome::Serve(p) => resolved_file(*facts) == Some(p@),
            StaticOutcome::NotFound => resolved_file(*facts) is None,
            StaticOutcome::Forbidden => false,
        },
{
    if request_subpath(uri).is_none() {
        return StaticOutcome::Forbidden;
    }
    match resolve_candidate(facts) {
        Some(p) => StaticOutcome::Serve(p),
        None => StaticOutcome::NotFound,
    }
}

} // verus!
