//! The gateway's failure type, its HTTP mapping and its texts.
use vstd::prelude::*;
use crate::text::{decimal, decimal_string, to_chars};

verus! {

/// Every way a request can fail.
#[derive(Clone, Debug)]
#[allow(inconsistent_fields)]
pub enum BackendError {
    RepositoryNotFound,
    RepositoryPermissionsNotFound,
    SourceRepositoryMissingPrimaryMirror,
    ObjectNotFound(String),
    ApiKeyNotFound,
    DataConnectionNotFound,
    InvalidRequest(String),
    /// A network failure, with the URL involved when known.
    ReqwestError { url: Option<String>, message: String },
    ApiServerError { url: String, status: u16, message: String },
    ApiClientError { url: String, status: u16, message: String },
    JsonParseError { url: String },
    UnexpectedDataConnectionProvider { provider: String },
    UnauthorizedError,
    UnexpectedApiError(String),
    UnsupportedAuthMethod(String),
    UnsupportedOperation(String),
    XmlParseError(String),
    /// A failure reported by the Azure SDK, as that SDK describes it.
    AzureError(String),
    S3Error(String),
}

/// How `{:?}` writes one character inside a quoted string.
pub open spec fn escape_char(c: char) -> Seq<char> {
    if c == '"' {
        seq!['\\', '"']
    } else if c == '\\' {
        seq!['\\', '\\']
    } else if c == '\n' {
        seq!['\\', 'n']
    } else if c == '\r' {
        seq!['\\', 'r']
    } else if c == '\t' {
        seq!['\\', 't']
    } else if c == '\0' {
        seq!['\\', '0']
    } else {
        seq![c]
    }
}

pub open spec fn escape_seq(s: Seq<char>) -> Seq<char>
    decreases s.len(),
{
    if s.len() == 0 {
        seq![]
    } else {
        escape_seq(s.drop_last()) + escape_char(s.last())
    }
}

/// `s` in double quotes, with quotes, backslashes and control characters escaped.
pub open spec fn debug_quoted(s: Seq<char>) -> Seq<char> {
    seq!['"'] + escape_seq(s) + seq!['"']
}

impl BackendError {
    /// The HTTP status of the failure.
    pub open spec fn status_spec(&self) -> u16 {
        match self {
            BackendError::InvalidRequest(_)
            | BackendError::UnsupportedAuthMethod(_)
            | BackendError::UnsupportedOperation(_) => 400,
            BackendError::UnauthorizedError => 401,
            BackendError::RepositoryNotFound
            | BackendError::ObjectNotFound(_)
            | BackendError::SourceRepositoryMissingPrimaryMirror
            | BackendError::ApiKeyNotFound
            | BackendError::DataConnectionNotFound => 404,
            BackendError::ReqwestError { .. }
            | BackendError::ApiServerError { .. }
            | BackendError::ApiClientError { .. }
            | BackendError::RepositoryPermissionsNotFound
            | BackendError::AzureError(_)
            | BackendError::S3Error(_) => 502,
            _ => 500,
        }
    }

    /// The text of the failure.
    pub open spec fn message_spec(&self) -> Seq<char> {
        match self {
            BackendError::RepositoryNotFound => "repository not found"@,
            BackendError::RepositoryPermissionsNotFound => "failed to fetch repository permissions"@,
            BackendError::SourceRepositoryMissingPrimaryMirror => "source repository missing primary mirror"@,
            BackendError::ObjectNotFound(k) => "object not found: "@ + debug_quoted(k@),
            BackendError::ApiKeyNotFound => "api key not found"@,
            BackendError::DataConnectionNotFound => "data connection not found"@,
            BackendError::InvalidRequest(_) => "invalid request"@,
            BackendError::ReqwestError { url, message } => "reqwest error (url "@ + match url {
                Some(u) => u@,
                None => "unknown"@,
            } + ", message "@ + message@ + ")"@,
            BackendError::ApiServerError { url, status, message } => "api threw a server error (url "@
                + url@ + ", status "@ + decimal(*status as nat) + ", message "@ + message@ + ")"@,
            BackendError::ApiClientError { url, status, message } => "api threw a client error (url "@
                + url@ + ", status "@ + decimal(*status as nat) + ", message "@ + message@ + ")"@,
            BackendError::JsonParseError { url } => "failed to parse JSON (url "@ + url@ + ")"@,
            BackendError::UnexpectedDataConnectionProvider { provider } =>
                "unexpected data connection provider (provider "@ + provider@ + ")"@,
            BackendError::UnauthorizedError => "unauthorized"@,
            BackendError::UnexpectedApiError(m) => "unexpected API error: "@ + m@,
            BackendError::UnsupportedAuthMethod(m) => "unsupported auth method: "@ + m@,
            BackendError::UnsupportedOperation(m) => "unsupported operation: "@ + m@,
            BackendError::XmlParseError(m) => "xml parse error: "@ + m@,
            BackendError::AzureError(m) => "azure error: "@ + m@,
            BackendError::S3Error(m) => "s3 error: "@ + m@,
        }
    }

    /// The body of the error response: the text itself for a client error (4xx),
    /// prefixed with `Internal Server Error: ` otherwise.
    pub open spec fn body_spec(&self) -> Seq<char> {
        if 400 <= self.status_spec() < 500 {
            self.message_spec()
        } else {
            "Internal Server Error: "@ + self.message_spec()
        }
    }

    /// The HTTP status of the failure.
    pub fn status_code(&self) -> (r: u16)
        ensures
            r == self.status_spec(),
    {
        match self {
            BackendError::InvalidRequest(_)
            | BackendError::UnsupportedAuthMethod(_)
            | BackendError::UnsupportedOperation(_) => 400,
            BackendError::UnauthorizedError => 401,
            BackendError::RepositoryNotFound
            | BackendError::ObjectNotFound(_)
            | BackendError::SourceRepositoryMissingPrimaryMirror
            | BackendError::ApiKeyNotFound
            | BackendError::DataConnectionNotFound => 404,
            BackendError::ReqwestError { .. }
            | BackendError::ApiServerError { .. }
            | BackendError::ApiClientError { .. }
            | BackendError::RepositoryPermissionsNotFound
            | BackendError::AzureError(_)
            | BackendError::S3Error(_) => 502,
            _ => 500,
        }
    }

    /// The text of the failure.
    pub fn to_string(&self) -> (r: String)
        ensures
            r@ == self.message_spec(),
    {
        match self {
            BackendError::RepositoryNotFound => "repository not found".to_owned(),
            BackendError::RepositoryPermissionsNotFound => "failed to fetch repository permissions".to_owned(),
            BackendError::SourceRepositoryMissingPrimaryMirror => "source repository missing primary mirror".to_owned(),
            BackendError::ObjectNotFound(k) => {
                let mut r = "object not found: ".to_owned();
                let q = debug_quote(k.as_str());
                r.push_str(q.as_str());
                r
            },
            BackendError::ApiKeyNotFound => "api key not found".to_owned(),
            BackendError::DataConnectionNotFound => "data connection not found".to_owned(),
            BackendError::InvalidRequest(_) => "invalid request".to_owned(),
            BackendError::ReqwestError { url, message } => {
                let mut r = "reqwest error (url ".to_owned();
                match url {
                    Some(u) => r.push_str(u.as_str()),
                    None => r.push_str("unknown"),
                }
                r.push_str(", message ");
                r.push_str(message.as_str());
                r.push_str(")");
                r
            },
            BackendError::ApiServerError { url, status, message } => {
                let mut r = "api threw a server error (url ".to_owned();
                api_error_tail(&mut r, url, *status, message);
                r
            },
            BackendError::ApiClientError { url, status, message } => {
                let mut r = "api threw a client error (url ".to_owned();
                api_error_tail(&mut r, url, *status, message);
                r
            },
            BackendError::JsonParseError { url } => {
                let mut r = "failed to parse JSON (url ".to_owned();
                r.push_str(url.as_str());
                r.push_str(")");
                r
            },
            BackendError::UnexpectedDataConnectionProvider { provider } => {
                let mut r = "unexpected data connection provider (provider ".to_owned();
                r.push_str(provider.as_str());
                r.push_str(")");
                r
            },
            BackendError::UnauthorizedError => "unauthorized".to_owned(),
            BackendError::UnexpectedApiError(m) => prefixed("unexpected API error: ", m),
            BackendError::UnsupportedAuthMethod(m) => prefixed("unsupported auth method: ", m),
            BackendError::UnsupportedOperation(m) => prefixed("unsupported operation: ", m),
            BackendError::XmlParseError(m) => prefixed("xml parse error: ", m),
            BackendError::AzureError(m) => prefixed("azure error: ", m),
            BackendError::S3Error(m) => prefixed("s3 error: ", m),
        }
    }

    /// The body of the error response (see [`BackendError::body_spec`]).
    pub fn response_body(&self) -> (r: String)
        ensures
            r@ == self.body_spec(),
    {
        let status = self.status_code();
        let message = self.to_string();
        if 400 <= status && status < 500 {
            message
        } else {
            prefixed("Internal Server Error: ", &message)
        }
    }
}

fn prefixed(p: &str, m: &String) -> (r: String)
    ensures
        r@ == p@ + m@,
{
    let mut r = p.to_owned();
    r.push_str(m.as_str());
    r
}

fn api_error_tail(r: &mut String, url: &String, status: u16, message: &String)
    ensures
        final(r)@ == old(r)@ + url@ + ", status "@ + decimal(status as nat) + ", message "@
            + message@ + ")"@,
{
    r.push_str(url.as_str());
    r.push_str(", status ");
    let s = decimal_string(status as u64);
    r.push_str(s.as_str());
    r.push_str(", message ");
    r.push_str(message.as_str());
    r.push_str(")");
}

/// `s` as `{:?}` writes it: quoted, with quotes, backslashes and control characters escaped.
pub fn debug_quote(s: &str) -> (r: String)
    ensures
        r@ == debug_quoted(s@),
{
    let v = to_chars(s);
    let mut r = String::new();
    r.push('"');
    let mut i: usize = 0;
    while i < v.len()
        invariant
            i <= v@.len(),
            r@ == seq!['"'] + escape_seq(v@.subrange(0, i as int)),
        decreases v@.len() - i,
    {
        let c = v[i];
        if c == '"' {
            r.push('\\');
            r.push('"');
        } else if c == '\\' {
            r.push('\\');
            r.push('\\');
        } else if c == '\n' {
            r.push('\\');
            r.push('n');
        } else if c == '\r' {
            r.push('\\');
            r.push('r');
        } else if c == '\t' {
            r.push('\\');
            r.push('t');
        } else if c == '\0' {
            r.push('\\');
            r.push('0');
        } else {
            r.push(c);
        }
        proof {
            let now = v@.subrange(0, i + 1);
            assert(now.drop_last() =~= v@.subrange(0, i as int));
        }
        i = i + 1;
        assert(r@ =~= seq!['"'] + escape_seq(v@.subrange(0, i as int)));
    }
    r.push('"');
    assert(v@.subrange(0, v@.len() as int) =~= v@);
    assert(r@ =~= debug_quoted(s@));
    r
}

/// The service error codes of the S3 SDK that the gateway tells apart.
#[derive(Clone, Copy, Debug, PartialEq, Eq, Structural)]
pub enum ServiceErrorKind {
    NoSuchKey,
    NoSuchBucket,
    Other,
}

/// A failure of the S3 SDK, as plain values: each variant carries the text the
/// SDK gives for it; `Unknown` carries the HTTP status, its status line
/// (`500 Internal Server Error`) and the response body.
#[derive(Clone, Debug)]
pub enum RusotoFailure {
    Service { kind: ServiceErrorKind, message: String },
    HttpDispatch(String),
    Credentials(String),
    Validation(String),
    ParseError(String),
    Unknown { status: u16, status_line: String, body: String },
    Blocking,
}

/// The text of an S3 SDK failure during `operation`.
pub open spec fn rusoto_message(operation: Seq<char>, e: RusotoFailure) -> Seq<char> {
    match e {
        RusotoFailure::Service { message, .. } => operation + " Service Error: "@ + message@,
        RusotoFailure::HttpDispatch(m) => operation + " HttpDispatch Error: "@ + m@,
        RusotoFailure::Credentials(m) => operation + " Credentials Error: "@ + m@,
        RusotoFailure::Validation(m) => operation + " Validation Error: "@ + m@,
        RusotoFailure::ParseError(m) => operation + " Parse Error: "@ + m@,
        RusotoFailure::Unknown { status_line, .. } => operation + " Unknown Error: status "@
            + status_line@,
        RusotoFailure::Blocking => operation + " Blocking Error"@,
    }
}

fn joined3(a: &str, b: &str, c: &str) -> (r: String)
    ensures
        r@ == a@ + b@ + c@,
{
    let mut r = a.to_owned();
    r.push_str(b);
    r.push_str(c);
    r
}

/// The text of an S3 SDK failure during `operation`.
pub fn get_rusoto_error_message(operation: &str, error: &RusotoFailure) -> (r: String)
    ensures
        r@ == rusoto_message(operation@, *error),
{
    match error {
        RusotoFailure::Service { message, .. } => joined3(operation, " Service Error: ", message.as_str()),
        RusotoFailure::HttpDispatch(m) => joined3(operation, " HttpDispatch Error: ", m.as_str()),
        RusotoFailure::Credentials(m) => joined3(operation, " Credentials Error: ", m.as_str()),
        RusotoFailure::Validation(m) => joined3(operation, " Validation Error: ", m.as_str()),
        RusotoFailure::ParseError(m) => joined3(operation, " Parse Error: ", m.as_str()),
        RusotoFailure::Unknown { status_line, .. } => joined3(
            operation,
            " Unknown Error: status ",
            status_line.as_str(),
        ),
        RusotoFailure::Blocking => prefixed(operation, &" Blocking Error".to_owned()),
    }
}

/// `r` is an `S3Error` with text `msg`.
pub open spec fn is_s3_error_with(r: BackendError, msg: Seq<char>) -> bool {
    r matches BackendError::S3Error(m) && m@ == msg
}

/// `r` is an `ObjectNotFound` for key `key`.
pub open spec fn is_not_found_with(r: BackendError, key: Seq<char>) -> bool {
    r matches BackendError::ObjectNotFound(k) && k@ == key
}

impl BackendError {
    /// An S3 SDK failure during `operation` (a write, delete or multipart step).
    pub fn from_s3_failure(operation: &str, error: RusotoFailure) -> (r: BackendError)
        ensures
            is_s3_error_with(r, rusoto_message(operation@, error)),
    {
        BackendError::S3Error(get_rusoto_error_message(operation, &error))
    }

    /// An S3 SDK failure of `HeadObject`: a missing key, or a 404 without a
    /// service code, is `ObjectNotFound`; anything else an `S3Error`.
    pub fn from_head_object_failure(error: RusotoFailure) -> (r: BackendError)
        ensures
            error matches RusotoFailure::Service { kind: ServiceErrorKind::NoSuchKey, message }
                ==> r == BackendError::ObjectNotFound(message),
            error matches RusotoFailure::Unknown { status, body, .. } ==> (status == 404
                ==> r == BackendError::ObjectNotFound(body)) && (status != 404 ==> is_s3_error_with(
                r,
                rusoto_message("HeadObject"@, error),
            )),
            !(error matches RusotoFailure::Service { kind: ServiceErrorKind::NoSuchKey, .. })
                && !(error is Unknown) ==> is_s3_error_with(r, rusoto_message("HeadObject"@, error)),
    {
        match error {
            RusotoFailure::Service { kind: ServiceErrorKind::NoSuchKey, message } => BackendError::ObjectNotFound(message),
            RusotoFailure::Unknown { status, status_line, body } => {
                if status == 404 {
                    BackendError::ObjectNotFound(body)
                } else {
                    BackendError::from_s3_failure(
                        "HeadObject",
                        RusotoFailure::Unknown { status, status_line, body },
                    )
                }
            },
            other => BackendError::from_s3_failure("HeadObject", other),
        }
    }

    /// An S3 SDK failure of `ListObjectsV2`: a missing bucket is
    /// `RepositoryNotFound`; anything else an `S3Error`.
    pub fn from_list_objects_failure(error: RusotoFailure) -> (r: BackendError)
        ensures
            error matches RusotoFailure::Service { kind: ServiceErrorKind::NoSuchBucket, .. }
                ==> r == BackendError::RepositoryNotFound,
            !(error matches RusotoFailure::Service { kind: ServiceErrorKind::NoSuchBucket, .. })
                ==> is_s3_error_with(r, rusoto_message("ListObjectsV2"@, error)),
    {
        match error {
            RusotoFailure::Service { kind: ServiceErrorKind::NoSuchBucket, .. } => BackendError::RepositoryNotFound,
            other => BackendError::from_s3_failure("ListObjectsV2", other),
        }
    }

    /// An Azure SDK failure: an HTTP 404 is `ObjectNotFound` with the service's
    /// error code (empty when it gave none); anything else an `AzureError` with
    /// the SDK's text.
    pub fn from_azure_failure(
        http_status: Option<u16>,
        error_code: Option<String>,
        message: String,
    ) -> (r: BackendError)
        ensures
            http_status == Some(404u16) ==> is_not_found_with(
                r,
                match error_code {
                    Some(c) => c@,
                    None => Seq::<char>::empty(),
                },
            ),
            http_status != Some(404u16) ==> r == BackendError::AzureError(message),
    {
        if http_status == Some(404u16) {
            match error_code {
                Some(c) => BackendError::ObjectNotFound(c),
                None => BackendError::ObjectNotFound(String::new()),
            }
        } else {
            BackendError::AzureError(message)
        }
    }

    /// A response body that is not the XML it should be.
    pub fn xml_parse_error(detail: &str) -> (r: BackendError)
        ensures
            r matches BackendError::XmlParseError(m) && m@ == "failed to parse xml: "@ + detail@,
    {
        BackendError::XmlParseError(prefixed("failed to parse xml: ", &detail.to_owned()))
    }
}

/// What a control-plane response means before its body is read: success (2xx)
/// goes on to decoding; 404 is the caller's not-found failure; 5xx is an
/// `ApiServerError`; any other status an `ApiClientError`.
pub fn classify_api_response(status: u16, url: String, body: String, not_found: BackendError) -> (r:
    Result<(), BackendError>)
    ensures
        200 <= status < 300 <==> r is Ok,
        status == 404 ==> r == Err::<(), BackendError>(not_found),
        500 <= status < 600 ==> r == Err::<(), BackendError>(
            BackendError::ApiServerError { url, status, message: body },
        ),
        !(200 <= status < 300) && status != 404 && !(500 <= status < 600) ==> r == Err::<
            (),
            BackendError,
        >(BackendError::ApiClientError { url, status, message: body }),
{
    if 200 <= status && status < 300 {
        Ok(())
    } else if status == 404 {
        Err(not_found)
    } else if 500 <= status && status < 600 {
        Err(BackendError::ApiServerError { url, status, message: body })
    } else {
        Err(BackendError::ApiClientError { url, status, message: body })
    }
}

} // verus!
