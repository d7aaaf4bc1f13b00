//! Per-request decision logic.
//!
//! A request is handled in steps: validate both path segments, look the
//! composite key up in the byte cache, on a miss (or a cache failure)
//! read the filesystem, respond, and after a filesystem hit schedule a
//! background write of the bytes back into the cache. The cache lookup,
//! the filesystem read, and the background write are I/O performed by
//! the caller; the functions here decide, for each step, what to do
//! next, and their contracts pin those decisions down.

use crate::validate::{is_valid_folder_name, valid_segment};
use vstd::prelude::*;
use vstd::string::StringExecFns;

verus! {

/// The cache key and relative filesystem path for a validated request:
/// directory, `/`, filename.
pub open spec fn composite_key(directory: Seq<char>, filename: Seq<char>) -> Seq<char> {
    directory + seq!['/'] + filename
}

/// Joins the two validated segments with `/` into the composite key.
pub fn make_key(directory: &str, filename: &str) -> (key: String)
    ensures
        key@ == composite_key(directory@, filename@),
{
    let mut key = String::from_str(directory);
    key.append("/");
    key.append(filename);
    proof {
        reveal_strlit("/");
        assert(key@ =~= composite_key(directory@, filename@));
    }
    key
}

/// What the server sends back for one request.
pub enum Response {
    /// HTTP 200; the body is the image bytes, served as `image/jpeg`.
    Success(Vec<u8>),
    /// HTTP 400; a path segment failed validation.
    BadRequest,
    /// HTTP 404; the file is in neither the cache nor the filesystem.
    NotFound,
}

/// Mathematical model of a [`Response`].
pub enum ResponseModel {
    Success(Seq<u8>),
    BadRequest,
    NotFound,
}

impl View for Response {
    type V = ResponseModel;

    open spec fn view(&self) -> ResponseModel {
        match self {
            Response::Success(body) => ResponseModel::Success(body@),
            Response::BadRequest => ResponseModel::BadRequest,
            Response::NotFound => ResponseModel::NotFound,
        }
    }
}

/// The HTTP status code of a response model.
pub open spec fn status_of(r: ResponseModel) -> int {
    match r {
        ResponseModel::Success(_) => 200,
        ResponseModel::BadRequest => 400,
        ResponseModel::NotFound => 404,
    }
}

impl Response {
    /// The HTTP status code this response is sent with.
    pub fn status_code(&self) -> (code: u16)
        ensures
            code == status_of(self@),
    {
        match self {
            Response::Success(_) => 200,
            Response::BadRequest => 400,
            Response::NotFound => 404,
        }
    }

    /// The `Content-Type` header value for this response: every success
    /// is served as `image/jpeg`, and only successes carry a body.
    pub fn content_type(&self) -> (t: Option<&'static str>)
        ensures
            t is Some <==> self@ is Success,
            t matches Some(s) ==> s@ == "image/jpeg"@,
    {
        match self {
            Response::Success(_) => Some("image/jpeg"),
            Response::BadRequest => None,
            Response::NotFound => None,
        }
    }
}

/// What one cache lookup came back with: the cached bytes, a clean
/// miss, or a failure talking to the store.
pub enum CacheOutcome {
    Hit(Vec<u8>),
    Miss,
    Unavailable,
}

/// Mathematical model of a [`CacheOutcome`].
pub enum CacheOutcomeModel {
    Hit(Seq<u8>),
    Miss,
    Unavailable,
}

impl View for CacheOutcome {
    type V = CacheOutcomeModel;

    open spec fn view(&self) -> CacheOutcomeModel {
        match self {
            CacheOutcome::Hit(bytes) => CacheOutcomeModel::Hit(bytes@),
            CacheOutcome::Miss => CacheOutcomeModel::Miss,
            CacheOutcome::Unavailable => CacheOutcomeModel::Unavailable,
        }
    }
}

/// First step: either a terminal rejection, or an order to look the
/// composite key up in the byte cache.
pub enum Step {
    /// A segment failed validation: respond at once, touch nothing.
    Reject(Response),
    /// Both segments are valid: ask the cache for this key.
    Lookup(String),
}

/// After the cache lookup: either a terminal response served from the
/// cache, or an order to read this relative path under the image root.
pub enum AfterLookup {
    Serve(Response),
    Load(String),
}

/// How a request ends: the response to send, and, after a filesystem
/// hit, the cache write to run in the background once the response is
/// on its way.
pub struct Completion {
    pub response: Response,
    pub background: Option<CacheWrite>,
}

/// A pending background cache write: store `bytes` under `key`. Its
/// failure is logged by the caller and never affects the response.
pub struct CacheWrite {
    pub key: String,
    pub bytes: Vec<u8>,
}

/// Validates both segments. Exactly the requests whose directory and
/// filename are both valid proceed to the cache lookup, under the
/// composite key; all others are rejected with a 400 before any cache
/// or filesystem access.
pub fn start_request(directory: &str, filename: &str) -> (step: Step)
    ensures
        valid_segment(directory@) && valid_segment(filename@) ==> (step matches Step::Lookup(key)
            && key@ == composite_key(directory@, filename@)),
        !(valid_segment(directory@) && valid_segment(filename@)) ==> (step matches Step::Reject(r)
            && r@ is BadRequest),
{
    if is_valid_folder_name(directory) && is_valid_folder_name(filename) {
        Step::Lookup(make_key(directory, filename))
    } else {
        Step::Reject(Response::BadRequest)
    }
}

/// Decides what follows the cache lookup. A hit is served as-is, with
/// no filesystem read and no cache write; a miss or a cache failure
/// falls back to the filesystem under the same relative path.
pub fn after_cache_lookup(key: String, outcome: CacheOutcome) -> (step: AfterLookup)
    ensures
        outcome@ matches CacheOutcomeModel::Hit(bytes) ==> (step matches AfterLookup::Serve(r)
            && r@ == ResponseModel::Success(bytes)),
        !(outcome@ is Hit) ==> (step matches AfterLookup::Load(path) && path@ == key@),
{
    match outcome {
        CacheOutcome::Hit(bytes) => AfterLookup::Serve(Response::Success(bytes)),
        CacheOutcome::Miss => AfterLookup::Load(key),
        CacheOutcome::Unavailable => AfterLookup::Load(key),
    }
}

/// Decides what follows the filesystem read. A loaded file is served
/// with a 200 and scheduled for a background cache write under the same
/// key with the same bytes; an absent file ends in a 404 with no write.
pub fn after_file_load(key: String, loaded: Option<Vec<u8>>) -> (fin: Completion)
    ensures
        loaded matches Some(bytes) ==> (fin.background matches Some(w) && w.key@ == key@
            && w.bytes@ == bytes@ && fin.response@ == ResponseModel::Success(bytes@)),
        loaded is None ==> fin.response@ is NotFound && fin.background is None,
{
    match loaded {
        Some(bytes) => {
            let copy = copy_bytes(&bytes);
            Completion {
                response: Response::Success(bytes),
                background: Some(CacheWrite { key, bytes: copy }),
            }
        },
        None => Completion { response: Response::NotFound, background: None },
    }
}

/// The response of a whole request, as a function of the two path
/// segments, the cache lookup's outcome, and what the filesystem holds
/// under the composite key (`None` when the file is absent). The step
/// functions above realize exactly this: invalid segments end in a 400,
/// a cache hit is served as-is, and otherwise the filesystem decides
/// between a 200 and a 404.
pub open spec fn response_model(
    directory: Seq<char>,
    filename: Seq<char>,
    cache: CacheOutcomeModel,
    file: Option<Seq<u8>>,
) -> ResponseModel {
    if !(valid_segment(directory) && valid_segment(filename)) {
        ResponseModel::BadRequest
    } else {
        match cache {
            CacheOutcomeModel::Hit(bytes) => ResponseModel::Success(bytes),
            _ => match file {
                Some(bytes) => ResponseModel::Success(bytes),
                None => ResponseModel::NotFound,
            },
        }
    }
}

/// Whether handling the request consults the cache at all: only after
/// both segments validate.
pub open spec fn reads_cache(directory: Seq<char>, filename: Seq<char>) -> bool {
    valid_segment(directory) && valid_segment(filename)
}

/// Whether handling the request reads the filesystem: only after both
/// segments validate and the cache lookup did not hit.
pub open spec fn reads_filesystem(
    directory: Seq<char>,
    filename: Seq<char>,
    cache: CacheOutcomeModel,
) -> bool {
    valid_segment(directory) && valid_segment(filename) && !(cache is Hit)
}

/// The background cache write a request schedules: key and bytes after
/// a filesystem hit that followed a cache miss or failure, nothing
/// otherwise.
pub open spec fn cache_write_model(
    directory: Seq<char>,
    filename: Seq<char>,
    cache: CacheOutcomeModel,
    file: Option<Seq<u8>>,
) -> Option<(Seq<char>, Seq<u8>)> {
    if reads_filesystem(directory, filename, cache) && file is Some {
        Some((composite_key(directory, filename), file->0))
    } else {
        None
    }
}

/// A request with an invalid segment is rejected with a 400 before any
/// access: the cache is not consulted, the filesystem is not read, and
/// no cache write is scheduled, whatever the store or the disk hold.
pub proof fn lemma_invalid_rejected_without_access(
    directory: Seq<char>,
    filename: Seq<char>,
    cache: CacheOutcomeModel,
    file: Option<Seq<u8>>,
)
    requires
        !(valid_segment(directory) && valid_segment(filename)),
    ensures
        status_of(response_model(directory, filename, cache, file)) == 400,
        !reads_cache(directory, filename),
        !reads_filesystem(directory, filename, cache),
        cache_write_model(directory, filename, cache, file) is None,
{
}

/// A key present in the cache is served from the cache alone: the
/// response carries the cached bytes unchanged, the filesystem is not
/// read (whatever it holds), and no cache write is scheduled.
pub proof fn lemma_cache_hit_served_from_cache(
    directory: Seq<char>,
    filename: Seq<char>,
    cached: Seq<u8>,
    file: Option<Seq<u8>>,
)
    requires
        valid_segment(directory),
        valid_segment(filename),
    ensures
        response_model(directory, filename, CacheOutcomeModel::Hit(cached), file)
            == ResponseModel::Success(cached),
        !reads_filesystem(directory, filename, CacheOutcomeModel::Hit(cached)),
        cache_write_model(directory, filename, CacheOutcomeModel::Hit(cached), file) is None,
{
}

/// A key absent from the cache but present on the filesystem is served
/// with the file's bytes, and the write scheduled behind the response
/// stores those same bytes under the composite key.
pub proof fn lemma_miss_serves_file_and_schedules_write(
    directory: Seq<char>,
    filename: Seq<char>,
    body: Seq<u8>,
)
    requires
        valid_segment(directory),
        valid_segment(filename),
    ensures
        response_model(directory, filename, CacheOutcomeModel::Miss, Some(body))
            == ResponseModel::Success(body),
        cache_write_model(directory, filename, CacheOutcomeModel::Miss, Some(body))
            == Some((composite_key(directory, filename), body)),
{
}

/// A key absent from both the cache and the filesystem ends in a 404,
/// and no cache write is scheduled.
pub proof fn lemma_absent_everywhere_not_found(directory: Seq<char>, filename: Seq<char>)
    requires
        valid_segment(directory),
        valid_segment(filename),
    ensures
        status_of(response_model(directory, filename, CacheOutcomeModel::Miss, None)) == 404,
        cache_write_model(directory, filename, CacheOutcomeModel::Miss, None) is None,
{
}

/// Cache failures never break serving: when every cache operation
/// errors, a filesystem-present file is still served with a 200 and its
/// own bytes. (The background write's failure is invisible here too:
/// the response is not a function of the write's outcome.)
pub proof fn lemma_cache_failure_never_breaks_serving(
    directory: Seq<char>,
    filename: Seq<char>,
    body: Seq<u8>,
)
    requires
        valid_segment(directory),
        valid_segment(filename),
    ensures
        response_model(directory, filename, CacheOutcomeModel::Unavailable, Some(body))
            == ResponseModel::Success(body),
        status_of(response_model(directory, filename, CacheOutcomeModel::Unavailable, Some(body)))
            == 200,
{
}

/// An element-for-element copy of a byte vector: one copy goes into the
/// response body, the other into the background cache write.
fn copy_bytes(v: &Vec<u8>) -> (r: Vec<u8>)
    ensures
        r@ == v@,
{
    let mut r: Vec<u8> = Vec::new();
    let mut i: usize = 0;
    while i < v.len()
        invariant
            0 <= i <= v.len(),
            r@ == v@.subrange(0, i as int),
        decreases v.len() - i,
    {
        r.push(v[i]);
        i += 1;
    }
    proof {
        assert(r@ =~= v@);
    }
    r
}

} // verus!
