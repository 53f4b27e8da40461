//! Backend handles and the object records they exchange with the S3 surface.
use vstd::prelude::*;
use crate::errors::BackendError;
use crate::text::{find, starts_with, to_chars, string_of_range};

verus! {

/// An S3 (or S3-compatible) backend. `region_name` and `endpoint` make up the
/// region the SDK is given.
#[derive(Clone, Debug)]
pub struct S3Repository {
    pub account_id: String,
    pub repository_id: String,
    pub region_name: String,
    pub endpoint: String,
    pub bucket: String,
    pub base_prefix: String,
    pub auth_method: String,
    pub access_key_id: Option<String>,
    pub secret_access_key: Option<String>,
}

/// An Azure Blob Storage container, read anonymously.
#[derive(Clone, Debug)]
pub struct AzureRepository {
    pub account_id: String,
    pub repository_id: String,
    pub account_name: String,
    pub container_name: String,
    pub base_prefix: String,
}

/// The backend a repository resolves to.
#[derive(Clone, Debug)]
pub enum Backend {
    S3(S3Repository),
    Azure(AzureRepository),
}

/// Object metadata.
#[derive(Clone, Debug)]
pub struct HeadObjectResponse {
    pub content_length: u64,
    pub content_type: String,
    pub last_modified: String,
    pub etag: String,
}

/// Result of completing a multipart upload.
#[derive(Clone, Debug)]
pub struct CompleteMultipartUploadResponse {
    pub location: String,
    pub bucket: String,
    pub key: String,
    pub etag: String,
}

/// One listed object.
#[derive(Clone, Debug)]
pub struct Content {
    pub key: String,
    pub last_modified: String,
    pub etag: String,
    pub size: i64,
    pub storage_class: String,
}

/// One listed common prefix.
#[derive(Clone, Debug)]
pub struct CommonPrefix {
    pub prefix: String,
}

/// A page of a listing, as S3's `ListBucketResult`.
#[derive(Clone, Debug)]
pub struct ListBucketResult {
    pub name: String,
    pub prefix: String,
    pub key_count: i64,
    pub max_keys: i64,
    pub is_truncated: bool,
    pub contents: Vec<Content>,
    pub common_prefixes: Vec<CommonPrefix>,
    pub next_continuation_token: Option<String>,
}

/// Result of starting a multipart upload; `bucket` is the account.
#[derive(Clone, Debug)]
pub struct CreateMultipartUploadResponse {
    pub bucket: String,
    pub key: String,
    pub upload_id: String,
}

/// Result of uploading one part.
#[derive(Clone, Debug)]
pub struct UploadPartResponse {
    pub etag: String,
}

/// One part named in a `CompleteMultipartUpload` request.
#[derive(Clone, Debug)]
pub struct MultipartPart {
    pub part_number: i64,
    pub etag: String,
    pub checksum_crc32: Option<String>,
    pub checksum_crc32c: Option<String>,
    pub checksum_sha1: Option<String>,
    pub checksum_sha256: Option<String>,
}

/// The body of a `CompleteMultipartUpload` request.
#[derive(Clone, Debug)]
pub struct CompleteMultipartUpload {
    pub parts: Vec<MultipartPart>,
}

/// `s` without one trailing `/`.
pub open spec fn strip_one_slash(s: Seq<char>) -> Seq<char> {
    if s.len() > 0 && s.last() == '/' {
        s.drop_last()
    } else {
        s
    }
}

/// `s` without any trailing `/`.
pub open spec fn strip_slashes(s: Seq<char>) -> Seq<char>
    decreases s.len(),
{
    if s.len() > 0 && s.last() == '/' {
        strip_slashes(s.drop_last())
    } else {
        s
    }
}

/// The key a backend is given for a client key: `base_prefix/key`.
pub open spec fn backend_key_spec(base_prefix: Seq<char>, key: Seq<char>) -> Seq<char> {
    base_prefix + seq!['/'] + key
}

/// `s` without one trailing `/`.
pub fn strip_trailing_slash(s: &str) -> (r: String)
    ensures
        r@ == strip_one_slash(s@),
{
    let v = to_chars(s);
    if v.len() > 0 && v[v.len() - 1] == '/' {
        string_of_range(&v, 0, v.len() - 1)
    } else {
        string_of_range(&v, 0, v.len())
    }
}

/// `s` without any trailing `/`.
pub fn strip_trailing_slashes(s: &str) -> (r: String)
    ensures
        r@ == strip_slashes(s@),
{
    let v = to_chars(s);
    let mut n: usize = v.len();
    assert(v@.subrange(0, n as int) =~= v@);
    while n > 0 && v[n - 1] == '/'
        invariant
            n <= v@.len(),
            strip_slashes(v@) == strip_slashes(v@.subrange(0, n as int)),
        decreases n,
    {
        assert(v@.subrange(0, n as int).drop_last() =~= v@.subrange(0, n - 1));
        n = n - 1;
    }
    assert(v@.subrange(0, v@.len() as int) =~= v@);
    string_of_range(&v, 0, n)
}

/// The key a backend is given for a client key.
pub fn backend_key(base_prefix: &str, key: &str) -> (r: String)
    ensures
        r@ == backend_key_spec(base_prefix@, key@),
{
    let mut r = base_prefix.to_owned();
    r.push('/');
    r.push_str(key);
    r
}

/// The failure of a write on an Azure backend, which is read-only.
pub fn azure_write_unsupported(operation: &str) -> (r: BackendError)
    ensures
        r matches BackendError::UnsupportedOperation(m) && m@ == operation@ + " is not supported on Azure"@,
{
    let mut m = operation.to_owned();
    m.push_str(" is not supported on Azure");
    BackendError::UnsupportedOperation(m)
}

/// How the S3 SDK obtains credentials for a connection.
#[derive(Clone, Copy, Debug, PartialEq, Eq, Structural)]
pub enum CredentialSource {
    /// The static key pair of the connection.
    StaticKeys,
    /// The container's task role.
    ContainerRole,
    /// The default provider chain (local development).
    DefaultChain,
}

impl S3Repository {
    /// The credential source for the connection's auth method; any other method
    /// is an `UnsupportedAuthMethod`.
    pub fn credential_source(&self) -> (r: Result<CredentialSource, BackendError>)
        ensures
            self.auth_method@ == "s3_access_key"@ ==> r == Ok::<CredentialSource, BackendError>(CredentialSource::StaticKeys),
            self.auth_method@ == "s3_ecs_task_role"@ ==> r == Ok::<CredentialSource, BackendError>(CredentialSource::ContainerRole),
            self.auth_method@ == "s3_local"@ ==> r == Ok::<CredentialSource, BackendError>(CredentialSource::DefaultChain),
            self.auth_method@ != "s3_access_key"@ && self.auth_method@ != "s3_ecs_task_role"@
                && self.auth_method@ != "s3_local"@ ==> (r matches Err(BackendError::UnsupportedAuthMethod(m)) && m@
                == "Unsupported auth method: "@ + self.auth_method@),
    {
        proof {
            reveal_strlit("s3_access_key");
            reveal_strlit("s3_ecs_task_role");
            reveal_strlit("s3_local");
            assert("s3_access_key"@[3] != "s3_ecs_task_role"@[3]);
            assert("s3_access_key"@[3] != "s3_local"@[3]);
            assert("s3_ecs_task_role"@[3] != "s3_local"@[3]);
        }
        if crate::text::str_eq(self.auth_method.as_str(), "s3_access_key") {
            Ok(CredentialSource::StaticKeys)
        } else if crate::text::str_eq(self.auth_method.as_str(), "s3_ecs_task_role") {
            Ok(CredentialSource::ContainerRole)
        } else if crate::text::str_eq(self.auth_method.as_str(), "s3_local") {
            Ok(CredentialSource::DefaultChain)
        } else {
            let mut m = "Unsupported auth method: ".to_owned();
            m.push_str(self.auth_method.as_str());
            Err(BackendError::UnsupportedAuthMethod(m))
        }
    }

    /// The backend key of a client key.
    pub fn object_key(&self, key: &str) -> (r: String)
        ensures
            r@ == backend_key_spec(self.base_prefix@, key@),
    {
        backend_key(self.base_prefix.as_str(), key)
    }

    /// The URL the object of a client key is read from: under the local endpoint
    /// for `s3_local`, else under `https://s3.<region>.amazonaws.com`.
    pub fn object_url(&self, key: &str) -> (r: String)
        ensures
            self.auth_method@ == "s3_local"@ ==> r@ == "http://localhost:5050/"@ + self.bucket@
                + seq!['/'] + self.base_prefix@ + seq!['/'] + key@,
            self.auth_method@ != "s3_local"@ ==> r@ == "https://s3."@ + self.region_name@
                + ".amazonaws.com/"@ + self.bucket@ + seq!['/'] + self.base_prefix@ + seq!['/']
                + key@,
    {
        let mut r = if crate::text::str_eq(self.auth_method.as_str(), "s3_local") {
            "http://localhost:5050/".to_owned()
        } else {
            let mut u = "https://s3.".to_owned();
            u.push_str(self.region_name.as_str());
            u.push_str(".amazonaws.com/");
            u
        };
        r.push_str(self.bucket.as_str());
        r.push('/');
        r.push_str(self.base_prefix.as_str());
        r.push('/');
        r.push_str(key);
        r
    }
}

impl AzureRepository {
    /// The blob name of a client key: the base prefix without trailing `/`,
    /// then `/key`.
    pub fn blob_name(&self, key: &str) -> (r: String)
        ensures
            r@ == backend_key_spec(strip_slashes(self.base_prefix@), key@),
    {
        let base = strip_trailing_slashes(self.base_prefix.as_str());
        backend_key(base.as_str(), key)
    }

    /// The URL the blob of a client key is read from.
    pub fn blob_url(&self, key: &str) -> (r: String)
        ensures
            r@ == "https://"@ + self.account_name@ + ".blob.core.windows.net/"@
                + self.container_name@ + seq!['/'] + backend_key_spec(strip_slashes(self.base_prefix@), key@),
    {
        let mut r = "https://".to_owned();
        r.push_str(self.account_name.as_str());
        r.push_str(".blob.core.windows.net/");
        r.push_str(self.container_name.as_str());
        r.push('/');
        let name = self.blob_name(key);
        r.push_str(name.as_str());
        r
    }
}

/// The HTTP date (RFC 7231, in GMT) of an RFC 2822 date, when it parses.
pub uninterp spec fn http_date_of(rfc2822: Seq<char>) -> Option<Seq<char>>;

/// Relies on `chrono::DateTime::parse_from_rfc2822` and on formatting at offset
/// zero with `%a, %d %b %Y %H:%M:%S GMT`: the result depends on the input alone.
#[verifier::external_body]
pub(crate) fn rfc2822_to_rfc7231(rfc2822_date: &str) -> (r: Option<String>)
    ensures
        r matches Some(t) ==> http_date_of(rfc2822_date@) == Some(t@),
        r is None ==> http_date_of(rfc2822_date@) is None,
{
    match chrono::DateTime::parse_from_rfc2822(rfc2822_date) {
        Ok(d) => Some(
            d.with_timezone(&chrono::FixedOffset::east_opt(0).expect("zero offset")).format(
                "%a, %d %b %Y %H:%M:%S GMT",
            ).to_string(),
        ),
        Err(_) => None,
    }
}

/// The text given for a modification time that cannot be read.
pub open spec fn invalid_date() -> Seq<char> {
    "Invalid DateTime"@
}

/// The `Last-Modified` value of an Azure blob whose time was written as RFC 2822.
pub open spec fn azure_last_modified(rfc2822: Option<String>) -> Seq<char> {
    match rfc2822 {
        Some(t) => match http_date_of(t@) {
            Some(h) => h,
            None => invalid_date(),
        },
        None => invalid_date(),
    }
}

/// `n` as an unsigned length; negative lengths count as zero.
pub open spec fn length_of(n: Option<i64>) -> u64 {
    match n {
        Some(v) => if v < 0 { 0 } else { v as u64 },
        None => 0,
    }
}

impl AzureRepository {
    /// Object metadata from blob properties, the modification time as an HTTP date.
    pub fn head_response(
        content_length: u64,
        content_type: String,
        etag: String,
        last_modified_rfc2822: Option<String>,
    ) -> (r: HeadObjectResponse)
        ensures
            r.content_length == content_length,
            r.content_type == content_type,
            r.etag == etag,
            r.last_modified@ == azure_last_modified(last_modified_rfc2822),
    {
        let last_modified = match &last_modified_rfc2822 {
            Some(t) => match rfc2822_to_rfc7231(t.as_str()) {
                Some(h) => h,
                None => "Invalid DateTime".to_owned(),
            },
            None => "Invalid DateTime".to_owned(),
        };
        HeadObjectResponse { content_length, content_type, last_modified, etag }
    }
}

impl S3Repository {
    /// Object metadata from a `HeadObject` answer: absent fields are empty, a
    /// missing length is zero, a missing time is `now`.
    pub fn head_response(
        content_length: Option<i64>,
        content_type: Option<String>,
        etag: Option<String>,
        last_modified: Option<String>,
        now: &str,
    ) -> (r: HeadObjectResponse)
        ensures
            r.content_length == length_of(content_length),
            r.content_type@ == crate::resolve::or_default(content_type, Seq::empty()),
            r.etag@ == crate::resolve::or_default(etag, Seq::empty()),
            r.last_modified@ == crate::resolve::or_default(last_modified, now@),
    {
        let len: u64 = match content_length {
            Some(v) => if v < 0 {
                0
            } else {
                v as u64
            },
            None => 0,
        };
        HeadObjectResponse {
            content_length: len,
            content_type: match content_type {
                Some(t) => t,
                None => String::new(),
            },
            last_modified: match last_modified {
                Some(t) => t,
                None => now.to_owned(),
            },
            etag: match etag {
                Some(t) => t,
                None => String::new(),
            },
        }
    }

    /// The answer to an initiated upload: the account as bucket, the client key.
    pub fn create_multipart_response(&self, key: String, upload_id: String) -> (r:
        CreateMultipartUploadResponse)
        ensures
            r.bucket@ == self.account_id@,
            r.key == key,
            r.upload_id == upload_id,
    {
        CreateMultipartUploadResponse { bucket: self.account_id.clone(), key, upload_id }
    }

    /// The answer to a completed upload: no location, the account as bucket,
    /// the client key and the final entity tag.
    pub fn complete_multipart_response(&self, key: String, etag: String) -> (r:
        CompleteMultipartUploadResponse)
        ensures
            r.location@.len() == 0,
            r.bucket@ == self.account_id@,
            r.key == key,
            r.etag == etag,
    {
        CompleteMultipartUploadResponse {
            location: String::new(),
            bucket: self.account_id.clone(),
            key,
            etag,
        }
    }

    /// The URL a copy source (a backend identifier) is read from.
    pub fn source_url(&self, copy_identifier_path: &str) -> (r: String)
        ensures
            self.auth_method@ == "s3_local"@ ==> r@ == "http://localhost:5050/"@ + self.bucket@
                + seq!['/'] + copy_identifier_path@,
            self.auth_method@ != "s3_local"@ ==> r@ == "https://s3."@ + self.region_name@
                + ".amazonaws.com/"@ + self.bucket@ + seq!['/'] + copy_identifier_path@,
    {
        let mut r = if crate::text::str_eq(self.auth_method.as_str(), "s3_local") {
            "http://localhost:5050/".to_owned()
        } else {
            let mut u = "https://s3.".to_owned();
            u.push_str(self.region_name.as_str());
            u.push_str(".amazonaws.com/");
            u
        };
        r.push_str(self.bucket.as_str());
        r.push('/');
        r.push_str(copy_identifier_path);
        r
    }
}

/// The part number of an upload-part request: a decimal number below 2^63;
/// anything else is an `InvalidRequest`.
pub fn parse_part_number(part_number: &str) -> (r: Result<i64, BackendError>)
    ensures
        match crate::http::parse_u64_spec(part_number@) {
            Some(n) => if n <= i64::MAX as u64 {
                r == Ok::<i64, BackendError>(n as i64)
            } else {
                r matches Err(BackendError::InvalidRequest(_))
            },
            None => r matches Err(BackendError::InvalidRequest(_)),
        },
{
    match crate::http::parse_u64(part_number) {
        Some(n) => if n <= 0x7fff_ffff_ffff_ffff {
            Ok(n as i64)
        } else {
            Err(BackendError::InvalidRequest("Invalid part number".to_owned()))
        },
        None => Err(BackendError::InvalidRequest("Invalid part number".to_owned())),
    }
}

/// Bucket and prefix of an `s3://bucket/prefix` URI; `None` for another scheme.
pub open spec fn s3_uri_spec(uri: Seq<char>) -> Option<(Seq<char>, Seq<char>)> {
    if !starts_with(uri, "s3://"@) {
        None
    } else {
        let rest = uri.subrange(5, uri.len() as int);
        match find(rest, seq!['/']) {
            Some(i) => Some((rest.subrange(0, i), rest.subrange(i + 1, rest.len() as int))),
            None => Some((rest, Seq::empty())),
        }
    }
}

/// Reads an `s3://bucket/prefix` URI (see [`s3_uri_spec`]).
pub fn parse_s3_uri(uri: &str) -> (r: Result<(String, String), String>)
    ensures
        r matches Ok((b, p)) ==> s3_uri_spec(uri@) == Some((b@, p@)),
        r is Err ==> s3_uri_spec(uri@) is None,
{
    proof {
        reveal_strlit("s3://");
    }
    if !crate::text::starts_with_exec(uri, "s3://") {
        return Err("Invalid S3 URI: must start with 's3://'".to_owned());
    }
    let v = to_chars(uri);
    let rest = string_of_range(&v, 5, v.len());
    let (bucket, prefix) = crate::text::split_at_first_slash(rest.as_str());
    Ok((bucket, prefix))
}

} // verus!
