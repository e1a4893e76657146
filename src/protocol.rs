//! Translation of storage results into S3 responses: status, headers and
//! body for each operation, the listing with its truncation, and entity tags.
use crate::errors::{is_error_response, S3ProxyError, StorageError};
use crate::s3::{list_result_xml, pairs_view, ListObjectsV2Result, Object};
use crate::text::{decimal_string, decimal_text};
use vstd::prelude::*;

verus! {

/// The body of a response.
#[derive(Debug, Clone)]
pub enum ResponseBody {
    /// No body.
    Empty,
    /// An XML document.
    Xml(String),
    /// An object's bytes.
    Data(Vec<u8>),
}

/// An S3 response: status, headers in order, body.
#[derive(Debug, Clone)]
pub struct S3Response {
    pub status: u16,
    pub headers: Vec<(String, String)>,
    pub body: ResponseBody,
}

/// The texts of a response's headers.
pub open spec fn headers_view(h: Seq<(String, String)>) -> Seq<(Seq<char>, Seq<char>)> {
    pairs_view(h)
}

/// Query parameters of `ListObjectsV2`.
#[derive(Debug, Clone, Default)]
pub struct ListObjectsQuery {
    pub prefix: Option<String>,
    pub max_keys: Option<u32>,
    pub continuation_token: Option<String>,
}

/// Default page size of a listing.
pub open spec fn default_max_keys() -> u32 {
    1000
}

impl ListObjectsQuery {
    /// The prefix to list under: empty where none is given.
    pub fn prefix_or_empty(&self) -> (r: String)
        ensures
            r@ == crate::s3::opt_text(self.prefix),
    {
        match &self.prefix {
            Some(p) => p.clone(),
            None => String::new(),
        }
    }

    /// The page size: 1000 where none is given.
    pub fn max_keys_or_default(&self) -> (r: u32)
        ensures
            r == (match self.max_keys {
                Some(n) => n,
                None => default_max_keys(),
            }),
    {
        match self.max_keys {
            Some(n) => n,
            None => 1000,
        }
    }
}

/// What the store reports of one object.
#[derive(Debug, Clone)]
pub struct ObjectInfo {
    /// The provider-side key (with the prefix, if any).
    pub location: String,
    /// Size in bytes.
    pub size: u64,
    /// Last modification, in milliseconds since the Unix epoch.
    pub last_modified_millis: i64,
    /// The store's own entity tag, where it has one.
    pub e_tag: Option<String>,
}

/// The text that chrono gives for the instant `ms` (milliseconds since the
/// epoch) under the format `%Y-%m-%dT%H:%M:%S%.3fZ`.
pub uninterp spec fn iso8601_of(ms: int) -> Seq<char>;

/// The text that chrono gives for the instant `ms` (milliseconds since the
/// epoch) under the format `%a, %d %b %Y %H:%M:%S GMT`.
pub uninterp spec fn http_date_of(ms: int) -> Seq<char>;

/// Relies on chrono's `DateTime::format` with `%Y-%m-%dT%H:%M:%S%.3fZ`
/// (ISO 8601, millisecond precision); the text depends on the instant alone,
/// and is empty for an instant chrono cannot represent.
#[verifier::external_body]
fn iso8601_text(ms: i64) -> (r: String)
    ensures
        r@ == iso8601_of(ms as int),
{
    match chrono::DateTime::from_timestamp_millis(ms) {
        Some(d) => d.format("%Y-%m-%dT%H:%M:%S%.3fZ").to_string(),
        None => String::new(),
    }
}

/// Relies on chrono's `DateTime::format` with `%a, %d %b %Y %H:%M:%S GMT`
/// (the HTTP date of RFC 1123); the text depends on the instant alone, and is
/// empty for an instant chrono cannot represent.
#[verifier::external_body]
fn http_date_text(ms: i64) -> (r: String)
    ensures
        r@ == http_date_of(ms as int),
{
    match chrono::DateTime::from_timestamp_millis(ms) {
        Some(d) => d.format("%a, %d %b %Y %H:%M:%S GMT").to_string(),
        None => String::new(),
    }
}

/// Relies on `uuid::Uuid::new_v4` and its `Display`: a random UUID in the
/// hyphenated form, 36 characters.
#[verifier::external_body]
fn random_token() -> (r: String)
    ensures
        r@.len() == 36,
{
    uuid::Uuid::new_v4().to_string()
}

/// Whether `t` opens and closes with a double quote.
pub open spec fn is_quoted(t: Seq<char>) -> bool {
    t.len() >= 2 && t[0] == '"' && t[t.len() - 1] == '"'
}

/// `t` as a quoted entity tag: unchanged where it already opens and closes
/// with a double quote, else wrapped in a pair of them.
pub open spec fn quoted(t: Seq<char>) -> Seq<char> {
    if is_quoted(t) {
        t
    } else {
        seq!['"'] + t + seq!['"']
    }
}

/// Every quoted entity tag opens and closes with a double quote.
pub proof fn lemma_quoted_is_quoted(t: Seq<char>)
    ensures
        is_quoted(quoted(t)),
{
    if !is_quoted(t) {
        let q = seq!['"'] + t + seq!['"'];
        assert(q[0] == '"');
        assert(q[q.len() - 1] == '"');
    }
}

/// The entity tag of an object: the store's own where it has one, else one
/// made of the modification time and the size, so that it stays the same
/// while the object does.
pub open spec fn object_etag(o: ObjectInfo) -> Seq<char> {
    match o.e_tag {
        Some(t) => quoted(t@),
        None => quoted(iso8601_of(o.last_modified_millis as int) + seq!['-'] + decimal_text(
            o.size as nat,
        )),
    }
}

/// An object's entity tag opens and closes with a double quote.
pub proof fn lemma_object_etag_is_quoted(o: ObjectInfo)
    ensures
        is_quoted(object_etag(o)),
{
    match o.e_tag {
        Some(t) => lemma_quoted_is_quoted(t@),
        None => lemma_quoted_is_quoted(
            iso8601_of(o.last_modified_millis as int) + seq!['-'] + decimal_text(o.size as nat),
        ),
    }
}

/// Writes `t` as a quoted entity tag.
pub fn quote(t: &str) -> (r: String)
    ensures
        r@ == quoted(t@),
        is_quoted(r@),
{
    proof {
        reveal_strlit("\"");
        lemma_quoted_is_quoted(t@);
    }
    let n = t.unicode_len();
    if n >= 2 && t.get_char(0) == '"' && t.get_char(n - 1) == '"' {
        String::from_str(t)
    } else {
        let mut s = String::from_str("\"");
        s.append(t);
        s.append("\"");
        s
    }
}

/// The entity tag of an object from its parts: the store's own tag where it
/// has one, else the modification time as `modified` writes it, a dash, and
/// the size.
pub fn etag_from(e_tag: &Option<String>, modified: &str, size: u64) -> (r: String)
    ensures
        r@ == (match *e_tag {
            Some(t) => quoted(t@),
            None => quoted(modified@ + seq!['-'] + decimal_text(size as nat)),
        }),
{
    match e_tag {
        Some(t) => quote(t.as_str()),
        None => {
            let mut s = String::from_str(modified);
            proof {
                reveal_strlit("-");
            }
            s.append("-");
            let digits = decimal_string(size);
            s.append(digits.as_str());
            quote(s.as_str())
        },
    }
}

/// The entity tag of an object.
pub fn etag_for(o: &ObjectInfo) -> (r: String)
    ensures
        r@ == object_etag(*o),
{
    let modified = iso8601_text(o.last_modified_millis);
    etag_from(&o.e_tag, modified.as_str(), o.size)
}

/// `o` is the listing entry for `m`.
pub open spec fn lists_object(o: Object, m: ObjectInfo) -> bool {
    &&& o.key == m.location
    &&& o.last_modified@ == iso8601_of(m.last_modified_millis as int)
    &&& o.etag@ == object_etag(m)
    &&& is_quoted(o.etag@)
    &&& o.size == m.size
    &&& o.storage_class@ == "STANDARD"@
}

/// The listing entry for an object.
pub fn list_entry(m: &ObjectInfo) -> (r: Object)
    ensures
        lists_object(r, *m),
{
    proof {
        lemma_object_etag_is_quoted(*m);
    }
    Object {
        key: m.location.clone(),
        last_modified: iso8601_text(m.last_modified_millis),
        etag: etag_for(m),
        size: m.size,
        storage_class: String::from_str("STANDARD"),
    }
}

/// `r` is the listing of `bucket` under `prefix` that shows the first
/// `max_keys` of `objects`, in order, and is truncated exactly when more
/// objects were found.
pub open spec fn is_listing(
    r: ListObjectsV2Result,
    bucket: String,
    prefix: Option<String>,
    max_keys: u32,
    objects: Seq<ObjectInfo>,
) -> bool {
    &&& r.name == bucket
    &&& r.prefix == prefix
    &&& r.max_keys == max_keys
    &&& r.contents@.len() <= max_keys
    &&& r.is_truncated == (objects.len() > max_keys)
    &&& r.contents@.len() == (if objects.len() > max_keys {
        max_keys as int
    } else {
        objects.len() as int
    })
    &&& forall|i: int| 0 <= i < r.contents@.len() ==> lists_object(#[trigger] r.contents@[i], objects[i])
    &&& r.common_prefixes is None
}

/// Truncating a full listing to `max_keys` keeps at most `max_keys` entries,
/// marks the listing truncated exactly when the store returned more than
/// that, and keeps every entry, in order, when it is not truncated.
pub proof fn lemma_listing_truncation(
    r: ListObjectsV2Result,
    bucket: String,
    prefix: Option<String>,
    max_keys: u32,
    objects: Seq<ObjectInfo>,
)
    requires
        is_listing(r, bucket, prefix, max_keys, objects),
    ensures
        r.contents@.len() <= max_keys,
        r.is_truncated <==> objects.len() > max_keys,
        !r.is_truncated ==> r.contents@.len() == objects.len(),
        forall|i: int| 0 <= i < r.contents@.len() ==> (#[trigger] r.contents@[i]).key == objects[i].location,
{
    assert forall|i: int| 0 <= i < r.contents@.len() implies (#[trigger] r.contents@[i]).key == objects[i].location by {
        assert(lists_object(r.contents@[i], objects[i]));
    }
}

/// The listing of `bucket` under `prefix` from everything the store
/// returned: the first `max_keys` objects, truncated when there were more.
pub fn list_result(
    bucket: String,
    prefix: Option<String>,
    max_keys: u32,
    objects: &Vec<ObjectInfo>,
) -> (r: ListObjectsV2Result)
    ensures
        is_listing(r, bucket, prefix, max_keys, objects@),
{
    let mut contents: Vec<Object> = Vec::new();
    let mut i: usize = 0;
    while i < objects.len() && (i as u64) < (max_keys as u64)
        invariant
            i <= objects@.len(),
            i <= max_keys,
            contents@.len() == i,
            forall|j: int| 0 <= j < i ==> lists_object(#[trigger] contents@[j], objects@[j]),
        decreases objects@.len() - i,
    {
        let entry = list_entry(&objects[i]);
        contents.push(entry);
        i = i + 1;
    }
    let is_truncated = (objects.len() as u64) > (max_keys as u64);
    ListObjectsV2Result {
        name: bucket,
        prefix,
        max_keys,
        is_truncated,
        contents,
        common_prefixes: None,
    }
}

fn header(name: &str, value: String) -> (r: (String, String))
    ensures
        r.0@ == name@,
        r.1 == value,
{
    (String::from_str(name), value)
}

/// GetObject: 200 with the bytes, their type and length; an absent object
/// gives 404 `NoSuchKey`, any other failure 500 `InternalError`.
pub fn get_object_response(result: Result<Vec<u8>, StorageError>) -> (r: S3Response)
    ensures
        match result {
            Ok(d) => r.status == 200 && headers_view(r.headers@) == seq![
                ("content-type"@, "application/octet-stream"@),
                ("content-length"@, decimal_text(d@.len())),
            ] && r.body == ResponseBody::Data(d),
            Err(e) => is_error_response(r, S3ProxyError::Storage(e)),
        },
{
    match result {
        Ok(d) => {
            let mut headers: Vec<(String, String)> = Vec::new();
            headers.push(header("content-type", String::from_str("application/octet-stream")));
            headers.push(header("content-length", decimal_string(d.len() as u64)));
            assert(headers_view(headers@) =~= seq![
                ("content-type"@, "application/octet-stream"@),
                ("content-length"@, decimal_text(d@.len())),
            ]);
            S3Response { status: 200, headers, body: ResponseBody::Data(d) }
        },
        Err(e) => S3ProxyError::Storage(e).into_response(),
    }
}

/// PutObject: 200 with an entity tag, the store's own where it reported one,
/// else a fresh random one; a failure gives its error response.
pub fn put_object_response(result: Result<Option<String>, StorageError>) -> (r: S3Response)
    ensures
        match result {
            Ok(Some(t)) => r.status == 200 && headers_view(r.headers@) == seq![
                ("etag"@, quoted(t@)),
            ] && r.body is Empty,
            Ok(None) => r.status == 200 && r.headers@.len() == 1 && r.headers@[0].0@ == "etag"@
                && r.headers@[0].1@.len() == 38 && r.headers@[0].1@[0] == '"' && r.headers@[0].1@[37]
                == '"' && r.body is Empty,
            Err(e) => is_error_response(r, S3ProxyError::Storage(e)),
        },
        result is Ok ==> is_quoted(r.headers@[0].1@),
{
    match result {
        Ok(tag) => {
            let etag = match &tag {
                Some(t) => quote(t.as_str()),
                None => {
                    let mut s = String::from_str("\"");
                    let token = random_token();
                    s.append(token.as_str());
                    s.append("\"");
                    proof {
                        reveal_strlit("\"");
                    }
                    s
                },
            };
            let mut headers: Vec<(String, String)> = Vec::new();
            headers.push(header("etag", etag));
            assert(headers_view(headers@) =~= seq![("etag"@, etag@)]);
            S3Response { status: 200, headers, body: ResponseBody::Empty }
        },
        Err(e) => S3ProxyError::Storage(e).into_response(),
    }
}

/// The status that DeleteObject answers for what the store reported: 204
/// for success and for an absent object alike, else the error's status.
pub open spec fn delete_status(result: Result<(), StorageError>) -> u16 {
    match result {
        Ok(()) => 204,
        Err(StorageError::NotFound { .. }) => 204,
        Err(e) => crate::errors::error_status(S3ProxyError::Storage(e)),
    }
}

/// DeleteObject: 204 whether or not the object existed; any other failure
/// gives 500 `InternalError`.
pub fn delete_object_response(result: Result<(), StorageError>) -> (r: S3Response)
    ensures
        r.status == delete_status(result),
        match result {
            Ok(()) | Err(StorageError::NotFound { .. }) => r.status == 204 && r.headers@.len() == 0
                && r.body is Empty,
            Err(e) => is_error_response(r, S3ProxyError::Storage(e)),
        },
{
    match result {
        Ok(()) | Err(StorageError::NotFound { .. }) => S3Response {
            status: 204,
            headers: Vec::new(),
            body: ResponseBody::Empty,
        },
        Err(e) => S3ProxyError::Storage(e).into_response(),
    }
}

/// Deleting is idempotent: whether the store reports success or that the
/// object is absent, on a first delete and on a repeated one, the answer is
/// the same 204.
pub proof fn lemma_delete_idempotent(
    first: Result<(), StorageError>,
    second: Result<(), StorageError>,
)
    requires
        first is Ok || first->Err_0 is NotFound,
        second is Ok || second->Err_0 is NotFound,
    ensures
        delete_status(first) == 204,
        delete_status(second) == delete_status(first),
{
}

/// HeadObject: 200 with the length, the HTTP date of the last change and the
/// entity tag; an absent object gives 404.
pub fn head_object_response(result: Result<ObjectInfo, StorageError>) -> (r: S3Response)
    ensures
        match result {
            Ok(m) => r.status == 200 && headers_view(r.headers@) == seq![
                ("content-length"@, decimal_text(m.size as nat)),
                ("last-modified"@, http_date_of(m.last_modified_millis as int)),
                ("etag"@, object_etag(m)),
            ] && r.body is Empty,
            Err(e) => is_error_response(r, S3ProxyError::Storage(e)),
        },
        result is Ok ==> is_quoted(r.headers@[2].1@),
{
    proof {
        if result is Ok {
            lemma_object_etag_is_quoted(result->Ok_0);
        }
    }
    match result {
        Ok(m) => {
            let mut headers: Vec<(String, String)> = Vec::new();
            headers.push(header("content-length", decimal_string(m.size)));
            headers.push(header("last-modified", http_date_text(m.last_modified_millis)));
            headers.push(header("etag", etag_for(&m)));
            assert(headers_view(headers@) =~= seq![
                ("content-length"@, decimal_text(m.size as nat)),
                ("last-modified"@, http_date_of(m.last_modified_millis as int)),
                ("etag"@, object_etag(m)),
            ]);
            S3Response { status: 200, headers, body: ResponseBody::Empty }
        },
        Err(e) => S3ProxyError::Storage(e).into_response(),
    }
}

/// ListObjectsV2: 200 with the `ListBucketResult` document of the first
/// `max_keys` objects (1000 by default); a failure gives its error response.
pub fn list_objects_response(
    bucket: String,
    query: &ListObjectsQuery,
    result: Result<Vec<ObjectInfo>, StorageError>,
) -> (r: S3Response)
    ensures
        match result {
            Ok(objects) => r.status == 200 && headers_view(r.headers@) == seq![
                ("content-type"@, "application/xml"@),
            ] && r.body is Xml && exists|l: ListObjectsV2Result|
                is_listing(
                    l,
                    bucket,
                    query.prefix,
                    match query.max_keys {
                        Some(n) => n,
                        None => default_max_keys(),
                    },
                    objects@,
                ) && r.body->Xml_0@ == #[trigger] list_result_xml(l),
            Err(e) => is_error_response(r, S3ProxyError::Storage(e)),
        },
{
    match result {
        Ok(objects) => {
            let prefix = match &query.prefix {
                Some(p) => Some(p.clone()),
                None => None,
            };
            let listing = list_result(bucket, prefix, query.max_keys_or_default(), &objects);
            let xml = listing.to_xml();
            let mut headers: Vec<(String, String)> = Vec::new();
            headers.push(header("content-type", String::from_str("application/xml")));
            assert(headers_view(headers@) =~= seq![("content-type"@, "application/xml"@)]);
            S3Response { status: 200, headers, body: ResponseBody::Xml(xml) }
        },
        Err(e) => S3ProxyError::Storage(e).into_response(),
    }
}

/// CreateBucket: 200 and nothing else; the bucket is managed elsewhere.
pub fn create_bucket_response() -> (r: S3Response)
    ensures
        r.status == 200 && r.headers@.len() == 0 && r.body is Empty,
{
    S3Response { status: 200, headers: Vec::new(), body: ResponseBody::Empty }
}

/// DeleteBucket: 204 and nothing else; the bucket is managed elsewhere.
pub fn delete_bucket_response() -> (r: S3Response)
    ensures
        r.status == 204 && r.headers@.len() == 0 && r.body is Empty,
{
    S3Response { status: 204, headers: Vec::new(), body: ResponseBody::Empty }
}

} // verus!
