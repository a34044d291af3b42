//! The single-route request/response contract.
//!
//! A request for the path `/download` is answered with the served file's
//! bytes and a `Content-Disposition` header naming the file's final path
//! segment; a failed read of the file yields a server-error response to
//! that one request; every other path is answered with a plain-text
//! "File not found." body. That soft answer deliberately carries status
//! 200, not a conventional not-found status: clients of this one-shot
//! tool read the body, and the single route makes any other path a typo.

use vstd::prelude::*;
use vstd::string::*;

verus! {

/// The body of a response: the raw served bytes, or a short text.
pub enum ResponseBody {
    Bytes(Vec<u8>),
    Text(String),
}

/// A response as the transport layer needs it: status code, optional
/// `Content-Disposition` header value, body.
pub struct HttpResponse {
    pub status: u16,
    pub content_disposition: Option<String>,
    pub body: ResponseBody,
}

/// Character-exact equality of two strings.
pub fn str_eq(a: &str, b: &str) -> (r: bool)
    ensures
        r == (a@ == b@),
{
    let la = a.unicode_len();
    let lb = b.unicode_len();
    if la != lb {
        return false;
    }
    let mut i: usize = 0;
    while i < la
        invariant
            la == a@.len(),
            la == b@.len(),
            i <= la,
            forall|j: int| 0 <= j < i ==> a@[j] == b@[j],
        decreases la - i,
    {
        if a.get_char(i) != b.get_char(i) {
            return false;
        }
        i += 1;
    }
    proof {
        assert(a@ =~= b@);
    }
    true
}

/// Whether a request path selects the download route.
pub fn is_download_route(path: &str) -> (r: bool)
    ensures
        r == (path@ == "/download"@),
{
    str_eq(path, "/download")
}

/// The suffix of `s` after its last `/`; `s` itself when it holds no `/`,
/// empty when it ends with `/`.
pub open spec fn spec_after_last_slash(s: Seq<char>) -> Seq<char>
    decreases s.len(),
{
    if s.len() == 0 {
        s
    } else if s[s.len() - 1] == '/' {
        Seq::empty()
    } else {
        spec_after_last_slash(s.drop_last()) + seq![s[s.len() - 1]]
    }
}

proof fn lemma_after_last_slash_subrange(s: Seq<char>, cut: int)
    requires
        0 <= cut <= s.len(),
        cut == 0 || s[cut - 1] == '/',
        forall|j: int| cut <= j < s.len() ==> s[j] != '/',
    ensures
        spec_after_last_slash(s) == s.subrange(cut, s.len() as int),
    decreases s.len(),
{
    if s.len() == 0 {
        assert(spec_after_last_slash(s) =~= s.subrange(cut, s.len() as int));
    } else if s[s.len() - 1] == '/' {
        assert(cut == s.len());
        assert(spec_after_last_slash(s) =~= s.subrange(cut, s.len() as int));
    } else {
        assert(cut < s.len());
        let t = s.drop_last();
        lemma_after_last_slash_subrange(t, cut);
        assert(spec_after_last_slash(s) =~= s.subrange(cut, s.len() as int));
    }
}

/// The display name of the served file: the final segment of its path.
pub fn display_name<'a>(path: &'a str) -> (r: &'a str)
    ensures
        r@ == spec_after_last_slash(path@),
{
    let n = path.unicode_len();
    let mut cut: usize = 0;
    let mut i: usize = 0;
    while i < n
        invariant
            n == path@.len(),
            i <= n,
            cut <= i,
            cut == 0 || path@[cut - 1] == '/',
            forall|j: int| cut <= j < i ==> path@[j] != '/',
        decreases n - i,
    {
        if path.get_char(i) == '/' {
            cut = i + 1;
        }
        i += 1;
    }
    proof {
        lemma_after_last_slash_subrange(path@, cut as int);
    }
    path.substring_char(cut, n)
}

/// The `Content-Disposition` header value for a display name.
pub open spec fn spec_content_disposition(name: Seq<char>) -> Seq<char> {
    "attachment; filename=\""@ + name + "\""@
}

/// Builds the `Content-Disposition` header value for the served file:
/// `attachment; filename="<final path segment>"`. The name is quoted and
/// not escaped; it derives from the trusted local path, not client input.
pub fn content_disposition_for(path: &str) -> (r: String)
    ensures
        r@ == spec_content_disposition(spec_after_last_slash(path@)),
{
    let name = display_name(path);
    let mut s: String = "attachment; filename=\"".to_owned();
    s.append(name);
    s.append("\"");
    s
}

/// The response to a request on the download route, given the outcome of
/// reading the served file. A successful read answers 200 with the file's
/// bytes, unchanged, and the attachment header; a failed read answers 500
/// to this one request, so that the process and other requests go on.
pub fn download_response(file_path: &str, read: Option<Vec<u8>>) -> (r: HttpResponse)
    ensures
        read matches Some(bytes) ==> {
            &&& r.status == 200
            &&& r.body matches ResponseBody::Bytes(b) && b@ == bytes@
            &&& r.content_disposition matches Some(h)
                && h@ == spec_content_disposition(spec_after_last_slash(file_path@))
        },
        read is None ==> {
            &&& r.status == 500
            &&& r.content_disposition is None
            &&& r.body matches ResponseBody::Text(t) && t@ == "Failed to read file."@
        },
{
    match read {
        Some(bytes) => HttpResponse {
            status: 200,
            content_disposition: Some(content_disposition_for(file_path)),
            body: ResponseBody::Bytes(bytes),
        },
        None => HttpResponse {
            status: 500,
            content_disposition: None,
            body: ResponseBody::Text("Failed to read file.".to_owned()),
        },
    }
}

/// The response to a request on any other path: status 200 with the
/// literal body `File not found.`.
pub fn not_found_response() -> (r: HttpResponse)
    ensures
        r.status == 200,
        r.content_disposition is None,
        r.body matches ResponseBody::Text(t) && t@ == "File not found."@,
{
    HttpResponse {
        status: 200,
        content_disposition: None,
        body: ResponseBody::Text("File not found.".to_owned()),
    }
}

} // verus!
