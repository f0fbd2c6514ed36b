//! The document uploader's verified half: building the request — target URL,
//! `Authorization` header, and the multipart `document` part — and classifying
//! the remote service's answer. The HTTP exchange itself and the file read are
//! performed outside; everything they need is computed here, and everything
//! they return is judged here.

use vstd::prelude::*;
use vstd::string::StrSliceExecFns;
use vstd::string::StringExecFns;

verus! {

/// The fixed path of the remote upload endpoint.
pub open spec fn api_endpoint_path() -> Seq<char> {
    "/api/documents/post_document/"@
}

/// A base URL with every trailing `/` removed. Stripping is what makes
/// joining insensitive to trailing slashes in the configured base URL.
pub open spec fn strip_trailing_slashes(s: Seq<char>) -> Seq<char>
    decreases s.len(),
{
    if s.len() > 0 && s[s.len() - 1] == '/' {
        strip_trailing_slashes(s.drop_last())
    } else {
        s
    }
}

/// The full upload URL for a configured base URL: the base, normalized by
/// dropping trailing slashes, with the fixed endpoint path appended.
pub open spec fn upload_url(base: Seq<char>) -> Seq<char> {
    strip_trailing_slashes(base) + api_endpoint_path()
}

/// Builds the target URL for the upload request from the configured base URL.
pub fn build_upload_url(base: &str) -> (u: String)
    ensures
        u@ == upload_url(base@),
{
    let len = base.unicode_len();
    proof {
        assert(base@.subrange(0, len as int) =~= base@);
    }
    let mut cut: usize = len;
    while cut > 0 && base.get_char(cut - 1) == '/'
        invariant
            cut <= len,
            len == base@.len(),
            strip_trailing_slashes(base@) == strip_trailing_slashes(
                base@.subrange(0, cut as int),
            ),
        decreases cut,
    {
        proof {
            let prefix = base@.subrange(0, cut as int);
            assert(prefix[prefix.len() - 1] == '/');
            assert(prefix.drop_last() =~= base@.subrange(0, cut as int - 1));
        }
        cut = cut - 1;
    }
    proof {
        let prefix = base@.subrange(0, cut as int);
        assert(strip_trailing_slashes(prefix) == prefix);
    }
    let head = base.substring_char(0, cut);
    let result = String::from_str(head).concat("/api/documents/post_document/");
    result
}

/// Stripping trailing slashes is idempotent: a base URL that has already been
/// normalized is left unchanged.
pub proof fn lemma_strip_trailing_slashes_idempotent(s: Seq<char>)
    ensures
        strip_trailing_slashes(strip_trailing_slashes(s)) == strip_trailing_slashes(s),
    decreases s.len(),
{
    if s.len() > 0 && s[s.len() - 1] == '/' {
        lemma_strip_trailing_slashes_idempotent(s.drop_last());
    }
}

/// The constructed URL does not depend on trailing slashes in the configured
/// base: a base with one more trailing slash yields the same upload URL.
pub proof fn lemma_upload_url_ignores_trailing_slash(base: Seq<char>)
    ensures
        upload_url(base.push('/')) == upload_url(base),
{
    assert(base.push('/').drop_last() =~= base);
}

/// Joining is idempotent in the base: normalizing a base and joining gives
/// exactly the URL that joining the original base gives, so joining twice
/// with the same base can never yield two different URLs.
pub proof fn lemma_upload_url_join_idempotent(base: Seq<char>)
    ensures
        upload_url(strip_trailing_slashes(base)) == upload_url(base),
{
    lemma_strip_trailing_slashes_idempotent(base);
}

/// The value of the `Authorization` header: the literal word `Token`, one
/// space, then the configured token, and nothing else.
pub open spec fn auth_header_value_of(token: Seq<char>) -> Seq<char> {
    "Token "@ + token
}

/// Builds the `Authorization` header value for the configured token.
pub fn auth_header_value(token: &str) -> (v: String)
    ensures
        v@ == auth_header_value_of(token@),
{
    String::from_str("Token ").concat(token)
}

/// Whether an HTTP status code counts as acceptance by the remote service:
/// any 2xx or 3xx status, and nothing else.
pub open spec fn is_success_status(code: u16) -> bool {
    200 <= code < 400
}

/// Classifies an HTTP status code: `true` exactly for 2xx and 3xx statuses.
pub fn status_accepted(code: u16) -> (r: bool)
    ensures
        r == is_success_status(code),
{
    200 <= code && code < 400
}

/// The outcome of one upload attempt, as the worker consumes it to decide
/// whether the local file may be deleted.
#[derive(Debug)]
pub enum UploadResult {
    /// The remote service accepted the document with this 2xx/3xx status.
    Accepted(u16),
    /// The remote service answered with a non-success HTTP status.
    HttpFailure(u16),
    /// The request never completed: DNS, connection refused, timeout.
    TransportFailure(String),
    /// The local file could not be read, or its name could not be resolved.
    LocalIoFailure(String),
}

/// Decides whether the local file may be deleted after an upload attempt:
/// only when the remote service accepted the document, never on any failure.
pub fn may_delete(outcome: &UploadResult) -> (b: bool)
    ensures
        b == (outcome matches UploadResult::Accepted(_)),
{
    match outcome {
        UploadResult::Accepted(_) => true,
        _ => false,
    }
}

/// The final path component of a path: the suffix after the last `/`, empty
/// when the path is empty or ends with `/` (no final component to name the
/// uploaded document by).
pub open spec fn file_name_of(path: Seq<char>) -> Seq<char>
    decreases path.len(),
{
    if path.len() == 0 {
        Seq::<char>::empty()
    } else if path[path.len() - 1] == '/' {
        Seq::<char>::empty()
    } else {
        file_name_of(path.drop_last()).push(path[path.len() - 1])
    }
}

/// Extracts the file name from a path: everything after the last `/`.
pub fn extract_file_name(path: &str) -> (name: String)
    ensures
        name@ == file_name_of(path@),
{
    let len = path.unicode_len();
    proof {
        assert(path@.subrange(0, len as int) =~= path@);
        assert(file_name_of(path@) =~= file_name_of(path@.subrange(0, len as int)) + path@.subrange(
            len as int,
            len as int,
        ));
    }
    let mut start: usize = len;
    while start > 0 && path.get_char(start - 1) != '/'
        invariant
            start <= len,
            len == path@.len(),
            file_name_of(path@) == file_name_of(path@.subrange(0, start as int))
                + path@.subrange(start as int, len as int),
        decreases start,
    {
        proof {
            let prefix = path@.subrange(0, start as int);
            assert(prefix[prefix.len() - 1] == path@[start - 1]);
            assert(prefix.drop_last() =~= path@.subrange(0, start as int - 1));
            assert(file_name_of(prefix.drop_last()).push(path@[start as int - 1])
                + path@.subrange(start as int, len as int) =~= file_name_of(
                path@.subrange(0, start as int - 1),
            ) + path@.subrange(start as int - 1, len as int));
        }
        start = start - 1;
    }
    proof {
        let prefix = path@.subrange(0, start as int);
        assert(file_name_of(prefix) == Seq::<char>::empty());
        assert(file_name_of(path@) =~= path@.subrange(start as int, len as int));
    }
    let tail = path.substring_char(start, len);
    String::from_str(tail)
}

/// The name of the one part of the multipart request body.
pub open spec fn document_part_name() -> Seq<char> {
    "document"@
}

/// The one part of the multipart request body: the file's bytes under the
/// part name `document`, carrying the file's own name.
pub struct DocumentPart {
    /// The multipart field name; always `document`.
    pub part_name: String,
    /// The name of the uploaded file, extracted from its path.
    pub file_name: String,
    /// The file's bytes, exactly as read from disk.
    pub bytes: Vec<u8>,
}

/// Builds the multipart `document` part from a file's path and the bytes read
/// from it. Fails — and the job aborts as a local failure — exactly when the
/// path has no final component to name the document by; the bytes themselves
/// are passed through untouched.
pub fn build_document_part(path: &str, bytes: Vec<u8>) -> (r: Result<DocumentPart, UploadResult>)
    ensures
        file_name_of(path@).len() > 0 ==> (r matches Ok(part) && part.part_name@
            == document_part_name() && part.file_name@ == file_name_of(path@) && part.bytes@
            == bytes@),
        file_name_of(path@).len() == 0 ==> (r matches Err(e) && e matches
            UploadResult::LocalIoFailure(_)),
{
    let file_name = extract_file_name(path);
    if file_name.as_str().unicode_len() == 0 {
        Err(UploadResult::LocalIoFailure(String::from_str("path has no file name")))
    } else {
        Ok(DocumentPart { part_name: String::from_str("document"), file_name, bytes })
    }
}

/// Whether `url::Url::parse` accepts a string as an absolute URL. The parser
/// is a function of the characters alone, so its verdict deserves a name.
pub uninterp spec fn url_accepted(s: Seq<char>) -> bool;

/// Relies on reqwest::Url::parse (the url crate's absolute-URL parser): its
/// verdict depends on the input string alone.
#[verifier::external_body]
fn url_parses(s: &str) -> (r: bool)
    ensures
        r == url_accepted(s@),
{
    reqwest::Url::parse(s).is_ok()
}

/// One file's upload job: everything an upload worker needs, owned by exactly
/// one worker and immutable for the job's whole life.
pub struct UploadJob {
    /// Absolute path of the file to upload (and to delete on success).
    pub path: String,
    /// The full upload URL: the configured base joined with the fixed
    /// endpoint path.
    pub endpoint_url: String,
    /// The configured API token, exactly as loaded at startup.
    pub auth_token: String,
}

impl UploadJob {
    /// Prepares one upload job from the configured base URL and token. The
    /// endpoint URL is the base joined with the fixed endpoint path; the job
    /// is refused exactly when that URL is not a valid absolute URL, and the
    /// token and path are carried through unchanged.
    pub fn prepare(path: String, base_url: &str, token: String) -> (r: Result<UploadJob, String>)
        ensures
            url_accepted(upload_url(base_url@)) ==> (r matches Ok(job) && job.path@ == path@
                && job.endpoint_url@ == upload_url(base_url@) && job.auth_token@ == token@),
            !url_accepted(upload_url(base_url@)) ==> r is Err,
    {
        let endpoint_url = build_upload_url(base_url);
        if url_parses(endpoint_url.as_str()) {
            Ok(UploadJob { path, endpoint_url, auth_token: token })
        } else {
            Err(String::from_str("given url not a valid url"))
        }
    }

    /// The `Authorization` header value this job sends: `Token ` followed by
    /// the configured token.
    pub fn auth_header(&self) -> (v: String)
        ensures
            v@ == auth_header_value_of(self.auth_token@),
    {
        auth_header_value(self.auth_token.as_str())
    }
}

} // verus!
