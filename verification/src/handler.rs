//! Request handling: resolving a request path to a file path, and composing
//! a response — status, body plan and headers — from the outcome of the file
//! reads. File reads themselves are performed by the caller; every function
//! here is a pure computation on the values handed in.

use vstd::prelude::*;
use vstd::string::StrSliceExecFns;
use vstd::string::StringExecFns;

use crate::rewrite::inject_audio_script;
use crate::rewrite::inject_spec;

verus! {

/// `s` with every leading `/` removed.
pub open spec fn strip_leading_slashes(s: Seq<char>) -> Seq<char>
    decreases s.len(),
{
    if s.len() > 0 && s[0] == '/' {
        strip_leading_slashes(s.subrange(1, s.len() as int))
    } else {
        s
    }
}

/// The file path a request path resolves to: the root path maps to the
/// default document; any other path is taken relative to the working
/// directory, with its leading separators stripped.
pub open spec fn resolved_path_spec(path: Seq<char>) -> Seq<char> {
    if path == "/"@ {
        "index.html"@
    } else {
        strip_leading_slashes(path)
    }
}

/// Stripping leading separators keeps the suffix that starts at the first
/// character that is not a separator.
proof fn lemma_strip_prefix(s: Seq<char>, i: int)
    requires
        0 <= i <= s.len(),
        forall|j: int| 0 <= j < i ==> s[j] == '/',
        i == s.len() || s[i] != '/',
    ensures
        strip_leading_slashes(s) == s.subrange(i, s.len() as int),
    decreases i,
{
    if i == 0 {
        assert(s.subrange(0, s.len() as int) =~= s);
    } else {
        let tail = s.subrange(1, s.len() as int);
        lemma_strip_prefix(tail, i - 1);
        assert(tail.subrange(i - 1, tail.len() as int) =~= s.subrange(i, s.len() as int));
    }
}

/// Resolve a request path to a file path, the executable counterpart of
/// `resolved_path_spec`. The query string plays no part in resolution.
pub fn resolve_file_path(path: &str) -> (r: String)
    ensures
        r@ == resolved_path_spec(path@),
{
    proof {
        reveal_strlit("/");
    }
    let n = path.unicode_len();
    if n == 1 && path.get_char(0) == '/' {
        proof {
            assert(path@ =~= "/"@);
        }
        return String::from_str("index.html");
    }
    proof {
        assert(path@ != "/"@) by {
            if path@ == "/"@ {
                assert(path@.len() == 1);
                assert(path@[0] == '/');
            }
        }
    }
    let mut i: usize = 0;
    while i < n && path.get_char(i) == '/'
        invariant
            i <= n,
            n == path@.len(),
            forall|j: int| 0 <= j < i ==> path@[j] == '/',
        decreases n - i,
    {
        i = i + 1;
    }
    proof {
        lemma_strip_prefix(path@, i as int);
    }
    path.substring_char(i, n).to_owned()
}

/// The path names an HTML document: it ends in `.html`.
pub open spec fn is_html_path(path: Seq<char>) -> bool {
    path.len() >= 5 && path.subrange(path.len() - 5, path.len() as int) == ".html"@
}

/// Executable counterpart of `is_html_path`.
pub fn path_is_html(path: &str) -> (r: bool)
    ensures
        r == is_html_path(path@),
{
    proof {
        reveal_strlit(".html");
    }
    let n = path.unicode_len();
    if n < 5 {
        return false;
    }
    let r = path.get_char(n - 5) == '.' && path.get_char(n - 4) == 'h' && path.get_char(n - 3)
        == 't' && path.get_char(n - 2) == 'm' && path.get_char(n - 1) == 'l';
    proof {
        let sub = path@.subrange(n - 5, n as int);
        assert(sub[0] == path@[n - 5]);
        assert(sub[1] == path@[n - 4]);
        assert(sub[2] == path@[n - 3]);
        assert(sub[3] == path@[n - 2]);
        assert(sub[4] == path@[n - 1]);
        if r {
            assert(sub =~= ".html"@);
        }
    }
    r
}

/// The MIME type that extension-based inference gives for a path, when it
/// gives one; a function of the path alone.
pub uninterp spec fn mime_for_path(path: Seq<char>) -> Option<Seq<char>>;

/// Relies on mime_guess::from_path and mime_guess::MimeGuess::first: the
/// MIME type inferred from the path's extension by a fixed table, so a
/// function of the path alone; Mime's Display impl writes the type's text.
#[verifier::external_body]
fn guess_mime(path: &str) -> (r: Option<String>)
    ensures
        r.deep_view() == mime_for_path(path@),
{
    mime_guess::from_path(path).first().map(|m| m.to_string())
}

/// How the response body is produced: a fully buffered text, or the resolved
/// file streamed to the client without buffering.
pub enum ResponseBody {
    Buffered(String),
    Stream,
}

/// A composed response: status, body plan, and headers in insertion order.
pub struct HttpResponse {
    pub status: u16,
    pub body: ResponseBody,
    pub headers: Vec<(String, String)>,
}

/// The headers of every response for `path`: the two cross-origin isolation
/// headers always; `Content-Type` when inference gives a type; and
/// `Cache-Control` for every non-HTML path, never for an HTML path.
pub open spec fn spec_headers(path: Seq<char>) -> Seq<(Seq<char>, Seq<char>)> {
    let base = seq![
        ("Cross-Origin-Opener-Policy"@, "same-origin"@),
        ("Cross-Origin-Embedder-Policy"@, "require-corp"@),
    ];
    let with_ct = match mime_for_path(path) {
        Some(m) => base.push(("Content-Type"@, m)),
        None => base,
    };
    if is_html_path(path) {
        with_ct
    } else {
        with_ct.push(("Cache-Control"@, "public, max-age=86400"@))
    }
}

/// Compose the response for the resolved file path `file_path`, given the
/// outcome of the file reads: `text` is the file's content where it could be
/// read as UTF-8 text, and `can_stream` says whether the file could be opened
/// for streaming. HTML text is rewritten before it is returned; a request
/// whose file could neither be read nor opened gets the fixed 404 response.
pub fn compose_response(file_path: &str, query: &str, text: Option<String>, can_stream: bool) -> (r:
    HttpResponse)
    ensures
        r.status == if text is Some || can_stream {
            200u16
        } else {
            404u16
        },
        match text {
            Some(content) => r.body matches ResponseBody::Buffered(b) && b@ == (
            if is_html_path(file_path@) {
                inject_spec(content@)
            } else {
                content@
            }),
            None => if can_stream {
                r.body is Stream
            } else {
                r.body matches ResponseBody::Buffered(b) && b@ == "404 Not Found"@
            },
        },
        r.headers.deep_view() == spec_headers(file_path@),
{
    let is_html = path_is_html(file_path);
    let status: u16;
    let body: ResponseBody;
    match text {
        Some(content) => {
            let mut content = content;
            if is_html {
                inject_audio_script(&mut content, query);
            }
            status = 200;
            body = ResponseBody::Buffered(content);
        },
        None => {
            if can_stream {
                status = 200;
                body = ResponseBody::Stream;
            } else {
                status = 404;
                body = ResponseBody::Buffered(String::from_str("404 Not Found"));
            }
        },
    }
    let mut headers: Vec<(String, String)> = Vec::new();
    headers.push(
        (String::from_str("Cross-Origin-Opener-Policy"), String::from_str("same-origin")),
    );
    headers.push(
        (String::from_str("Cross-Origin-Embedder-Policy"), String::from_str("require-corp")),
    );
    let mime = guess_mime(file_path);
    match mime {
        Some(m) => {
            headers.push((String::from_str("Content-Type"), m));
        },
        None => {},
    }
    if !is_html {
        headers.push(
            (String::from_str("Cache-Control"), String::from_str("public, max-age=86400")),
        );
    }
    proof {
        assert(headers.deep_view() =~= spec_headers(file_path@));
    }
    HttpResponse { status, body, headers }
}

/// The root request path resolves to the default document. Resolution takes
/// no query input, so the query string cannot affect it.
pub proof fn lemma_root_resolves_to_default()
    ensures
        resolved_path_spec("/"@) == "index.html"@,
{
}

/// Every response carries the two cross-origin isolation headers, first.
pub proof fn lemma_isolation_headers(path: Seq<char>)
    ensures
        spec_headers(path).len() >= 2,
        spec_headers(path)[0] == ("Cross-Origin-Opener-Policy"@, "same-origin"@),
        spec_headers(path)[1] == ("Cross-Origin-Embedder-Policy"@, "require-corp"@),
{
}

/// A response for an HTML path never carries a Cache-Control header.
pub proof fn lemma_html_no_cache_control(path: Seq<char>)
    requires
        is_html_path(path),
    ensures
        forall|i: int|
            0 <= i < spec_headers(path).len() ==> (#[trigger] spec_headers(path)[i]).0
                != "Cache-Control"@,
{
    reveal_strlit("Cross-Origin-Opener-Policy");
    reveal_strlit("Cross-Origin-Embedder-Policy");
    reveal_strlit("Content-Type");
    reveal_strlit("Cache-Control");
    let hs = spec_headers(path);
    assert forall|i: int| 0 <= i < hs.len() implies (#[trigger] hs[i]).0 != "Cache-Control"@ by {
        assert("Cross-Origin-Opener-Policy"@.len() == 26);
        assert("Cross-Origin-Embedder-Policy"@.len() == 28);
        assert("Content-Type"@.len() == 12);
        assert("Cache-Control"@.len() == 13);
        match mime_for_path(path) {
            Some(m) => {
                assert(hs.len() == 3);
                assert(hs[2].0 == "Content-Type"@);
            },
            None => {
                assert(hs.len() == 2);
            },
        }
    }
}

/// A response for a non-HTML path carries `Cache-Control: public,
/// max-age=86400`, as its last header.
pub proof fn lemma_non_html_cache_control(path: Seq<char>)
    requires
        !is_html_path(path),
    ensures
        spec_headers(path).last() == ("Cache-Control"@, "public, max-age=86400"@),
        spec_headers(path).contains(("Cache-Control"@, "public, max-age=86400"@)),
{
    let hs = spec_headers(path);
    assert(hs[hs.len() - 1] == ("Cache-Control"@, "public, max-age=86400"@));
}

/// A response carries a Content-Type header exactly where MIME inference
/// gives a type for the path, and then carries that type.
pub proof fn lemma_content_type_header(path: Seq<char>, m: Seq<char>)
    requires
        mime_for_path(path) == Some(m),
    ensures
        spec_headers(path).contains(("Content-Type"@, m)),
{
    let hs = spec_headers(path);
    assert(hs[2] == ("Content-Type"@, m));
    assert(hs.len() >= 3);
}

} // verus!
