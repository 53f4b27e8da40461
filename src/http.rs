//! Decisions of the S3 protocol surface: byte ranges, which operation a
//! request names, and how a listing request is routed.
use vstd::prelude::*;
use crate::backend::{CommonPrefix, ListBucketResult};
use crate::errors::BackendError;
use crate::model::Account;
use crate::text::{decimal, decimal_string, find, split_at_first_slash, starts_with, string_of_range, to_chars};

verus! {

/// A decimal digit character.
pub open spec fn is_digit(c: char) -> bool {
    '0' <= c <= '9'
}

/// The value of a string of decimal digits.
pub open spec fn digits_value(s: Seq<char>) -> nat
    decreases s.len(),
{
    if s.len() == 0 {
        0
    } else {
        digits_value(s.drop_last()) * 10 + ((s.last() as u32 - 48) as nat)
    }
}

/// What `str::parse::<u64>` accepts: an optional `+`, then one or more decimal
/// digits whose value fits in 64 bits.
pub open spec fn parse_u64_spec(s: Seq<char>) -> Option<u64> {
    if unsigned_digits(s).len() > 0 && all_digits(unsigned_digits(s)) && digits_value(unsigned_digits(s))
        <= u64::MAX {
        Some(digits_value(unsigned_digits(s)) as u64)
    } else {
        None
    }
}

/// `s` without one leading `+`.
pub open spec fn unsigned_digits(s: Seq<char>) -> Seq<char> {
    if s.len() > 0 && s[0] == '+' {
        s.drop_first()
    } else {
        s
    }
}

/// Every character of `d` is a decimal digit.
pub open spec fn all_digits(d: Seq<char>) -> bool {
    forall|i: int| 0 <= i < d.len() ==> is_digit(#[trigger] d[i])
}

proof fn lemma_digits_monotone(s: Seq<char>, k: int)
    requires
        0 <= k <= s.len(),
        forall|i: int| 0 <= i < s.len() ==> is_digit(#[trigger] s[i]),
    ensures
        digits_value(s.subrange(0, k)) <= digits_value(s),
    decreases s.len() - k,
{
    if k < s.len() {
        lemma_digits_monotone(s, k + 1);
        let t = s.subrange(0, k + 1);
        assert(t.drop_last() =~= s.subrange(0, k));
    } else {
        assert(s.subrange(0, k) =~= s);
    }
}

/// Reads a decimal number as `str::parse::<u64>` does.
pub fn parse_u64(s: &str) -> (r: Option<u64>)
    ensures
        r == parse_u64_spec(s@),
{
    let v = to_chars(s);
    let start: usize = if v.len() > 0 && v[0] == '+' { 1 } else { 0 };
    let ghost d = unsigned_digits(s@);
    assert(d =~= v@.subrange(start as int, v@.len() as int));
    if start == v.len() {
        return None;
    }
    let mut value: u64 = 0;
    let mut i: usize = start;
    while i < v.len()
        invariant
            start <= i <= v@.len(),
            d == unsigned_digits(s@),
            d == v@.subrange(start as int, v@.len() as int),
            forall|k: int| 0 <= k < i - start ==> is_digit(#[trigger] d[k]),
            value as nat == digits_value(d.subrange(0, i - start)),
        decreases v@.len() - i,
    {
        let c = v[i];
        if !('0' <= c && c <= '9') {
            assert(!is_digit(d[i - start]));
            assert(!all_digits(d));
            return None;
        }
        let digit = (c as u32 - 48) as u64;
        proof {
            let t = d.subrange(0, i - start + 1);
            assert(t.drop_last() =~= d.subrange(0, i - start));
        }
        if value > 1844674407370955161 || (value == 1844674407370955161 && digit > 5) {
            proof {
                let t = d.subrange(0, i - start + 1);
                assert(digits_value(t) == value as nat * 10 + digit as nat);
                assert(value as nat * 10 + digit as nat > u64::MAX) by (nonlinear_arith)
                    requires
                        value > 1844674407370955161 || (value == 1844674407370955161 && digit > 5),
                ;
                if all_digits(d) {
                    lemma_digits_monotone(d, i - start + 1);
                }
            }
            return None;
        }
        value = value * 10 + digit;
        i = i + 1;
    }
    assert(d.subrange(0, d.len() as int) =~= d);
    Some(value)
}

/// A byte range requested by a client: its first byte, and the header to
/// forward to the backend (`bytes=<start>-<end>`).
#[derive(Clone, Debug)]
pub struct ByteRange {
    pub start: u64,
    pub header: String,
}

/// The byte range named by a `Range` header of the form `bytes=<start>-<end>`
/// with an open end allowed; `None` when there is no such header.
pub open spec fn range_spec(header: Seq<char>) -> Option<(u64, Seq<char>)> {
    let p = "bytes="@;
    if !starts_with(header, p) {
        None
    } else {
        let rest = header.subrange(p.len() as int, header.len() as int);
        match find(rest, seq!['-']) {
            None => None,
            Some(i) => {
                let start = rest.subrange(0, i);
                let end = rest.subrange(i + 1, rest.len() as int);
                match parse_u64_spec(start) {
                    None => None,
                    Some(s) => if end.len() == 0 || parse_u64_spec(end) is Some {
                        Some((s, p + start + seq!['-'] + end))
                    } else {
                        None
                    },
                }
            },
        }
    }
}

/// The byte range a `Range` header asks for (see [`range_spec`]).
pub fn parse_range(header: Option<&str>) -> (r: Option<ByteRange>)
    ensures
        header is None ==> r is None,
        header matches Some(h) ==> match range_spec(h@) {
            Some((s, f)) => r matches Some(b) && b.start == s && b.header@ == f,
            None => r is None,
        },
{
    let h = match header {
        Some(h) => h,
        None => return None,
    };
    proof {
        reveal_strlit("bytes=");
    }
    let v = to_chars(h);
    let p = to_chars("bytes=");
    if !crate::text::starts_with_exec(h, "bytes=") {
        return None;
    }
    let rest = string_of_range(&v, p.len(), v.len());
    let (start, end) = split_at_first_dash(rest.as_str());
    match start {
        None => None,
        Some(start) => match parse_u64(start.as_str()) {
            None => None,
            Some(s) => {
                if end.as_str().is_empty() || parse_u64(end.as_str()).is_some() {
                    let mut f = "bytes=".to_owned();
                    f.push_str(start.as_str());
                    f.push('-');
                    f.push_str(end.as_str());
                    Some(ByteRange { start: s, header: f })
                } else {
                    None
                }
            },
        },
    }
}

/// Splits at the first `-`: the part before it (`None` when there is no `-`)
/// and the part after it.
fn split_at_first_dash(s: &str) -> (r: (Option<String>, String))
    ensures
        match find(s@, seq!['-']) {
            Some(i) => r.0 matches Some(a) && a@ == s@.subrange(0, i) && r.1@ == s@.subrange(
                i + 1,
                s@.len() as int,
            ),
            None => r.0 is None,
        },
{
    let v = to_chars(s);
    let mut dash: Vec<char> = Vec::new();
    dash.push('-');
    assert(dash@ =~= seq!['-']);
    let n = v.len();
    match crate::text::find_exec(&v, &dash) {
        Some(i) => {
            proof {
                crate::text::lemma_find_from_bounds(v@, dash@, 0);
            }
            (Some(string_of_range(&v, 0, i)), string_of_range(&v, i + 1, v.len()))
        },
        None => (None, String::new()),
    }
}

/// `Content-Range` of a partial response: `bytes <start>-<start+length-1>/<total>`;
/// `None` for an empty body, or when the last byte would pass 2^64 - 1.
pub fn content_range(start: u64, length: u64, total: u64) -> (r: Option<String>)
    ensures
        length == 0 || start as int + length as int - 1 > u64::MAX ==> r is None,
        length > 0 && start as int + length as int - 1 <= u64::MAX ==> (r matches Some(t) && t@
            == "bytes "@ + decimal(start as nat) + seq!['-'] + decimal((start + length - 1) as nat)
            + seq!['/'] + decimal(total as nat)),
{
    if length == 0 || start > u64::MAX - (length - 1) {
        return None;
    }
    let mut t = "bytes ".to_owned();
    let a = decimal_string(start);
    t.push_str(a.as_str());
    t.push('-');
    let b = decimal_string(start + (length - 1));
    t.push_str(b.as_str());
    t.push('/');
    let c = decimal_string(total);
    t.push_str(c.as_str());
    Some(t)
}

/// The status of a successful GET: 206 for a range request, 200 otherwise.
pub fn get_status(range: &Option<ByteRange>) -> (r: u16)
    ensures
        range is Some ==> r == 206,
        range is None ==> r == 200,
{
    if range.is_some() {
        206
    } else {
        200
    }
}

/// The query of an upload-part request.
#[derive(Clone, Debug)]
pub struct UploadPartQuery {
    pub part_number: String,
    pub upload_id: String,
}

/// The query of an abort-multipart request.
#[derive(Clone, Debug)]
pub struct AbortMultipartUploadQuery {
    pub upload_id: String,
}

/// The query of an initiate-multipart request.
#[derive(Clone, Debug)]
pub struct CreateMultipartUploadQuery {
    pub uploads: String,
}

/// The query of a complete-multipart request.
#[derive(Clone, Debug)]
pub struct CompleteMultipartUploadQuery {
    pub upload_id: String,
}

/// The query of a GET object request (it carries nothing the gateway reads).
#[derive(Clone, Debug)]
pub struct GetObjectQuery {}

/// What a PUT on an object asks for.
#[derive(Clone, Debug)]
pub enum PutAction {
    /// Server-side copy from the `x-amz-copy-source` identifier.
    Copy(String),
    UploadPart(UploadPartQuery),
    Put,
}

/// The operation of a PUT: a copy when `x-amz-copy-source` is present, else an
/// upload part when both `partNumber` and `uploadId` are given, else a whole
/// object when neither is; one without the other is an `InvalidRequest`.
pub fn put_action(copy_source: Option<String>, part_number: Option<String>, upload_id: Option<String>) -> (r:
    Result<PutAction, BackendError>)
    ensures
        copy_source matches Some(c) ==> (r matches Ok(PutAction::Copy(x)) && x == c),
        copy_source is None && part_number is Some && upload_id is Some ==> (r matches Ok(
            PutAction::UploadPart(q),
        ) && q.part_number == part_number->0 && q.upload_id == upload_id->0),
        copy_source is None && part_number is None && upload_id is None ==> (r matches Ok(
            PutAction::Put,
        )),
        copy_source is None && (part_number is Some) != (upload_id is Some) ==> (r matches Err(
            BackendError::InvalidRequest(_),
        )),
{
    match copy_source {
        Some(c) => Ok(PutAction::Copy(c)),
        None => match (part_number, upload_id) {
            (Some(p), Some(u)) => Ok(PutAction::UploadPart(UploadPartQuery { part_number: p, upload_id: u })),
            (None, None) => Ok(PutAction::Put),
            _ => Err(BackendError::InvalidRequest("Must provide both part number and upload id or neither.".to_owned())),
        },
    }
}

/// What a POST on an object asks for.
#[derive(Clone, Debug)]
pub enum PostAction {
    Initiate(CreateMultipartUploadQuery),
    Complete(CompleteMultipartUploadQuery),
}

/// The operation of a POST: initiate with `uploads`, complete with `uploadId`,
/// an `InvalidRequest` with neither.
pub fn post_action(uploads: Option<String>, upload_id: Option<String>) -> (r: Result<PostAction, BackendError>)
    ensures
        uploads matches Some(u) ==> (r matches Ok(PostAction::Initiate(q)) && q.uploads == u),
        uploads is None && upload_id is Some ==> (r matches Ok(PostAction::Complete(q)) && q.upload_id
            == upload_id->0),
        uploads is None && upload_id is None ==> (r matches Err(BackendError::InvalidRequest(_))),
{
    match (uploads, upload_id) {
        (Some(u), _) => Ok(PostAction::Initiate(CreateMultipartUploadQuery { uploads: u })),
        (None, Some(id)) => Ok(PostAction::Complete(CompleteMultipartUploadQuery { upload_id: id })),
        (None, None) => Err(BackendError::InvalidRequest("Must provide either uploads or uploadId".to_owned())),
    }
}

/// What a DELETE on an object asks for.
#[derive(Clone, Debug)]
pub enum DeleteAction {
    Abort(AbortMultipartUploadQuery),
    Delete,
}

/// The operation of a DELETE: abort the upload `uploadId` names, else delete the object.
pub fn delete_action(upload_id: Option<String>) -> (r: DeleteAction)
    ensures
        upload_id matches Some(u) ==> (r matches DeleteAction::Abort(q) && q.upload_id == u),
        upload_id is None ==> r matches DeleteAction::Delete,
{
    match upload_id {
        Some(u) => DeleteAction::Abort(AbortMultipartUploadQuery { upload_id: u }),
        None => DeleteAction::Delete,
    }
}

/// Where a listing request on an account goes.
#[derive(Clone, Debug)]
pub enum ListRoute {
    /// List the account's repositories.
    Account,
    /// List inside a repository, under a sub-prefix.
    Repository { repository_id: String, prefix: String },
}

/// `r` lists inside the repository named before the first `/` of `p`, under
/// the rest of `p`.
pub open spec fn routes_into_repository(r: ListRoute, p: Seq<char>) -> bool {
    r matches ListRoute::Repository { repository_id, prefix } && match find(p, seq!['/']) {
        Some(i) => repository_id@ == p.subrange(0, i) && prefix@ == p.subrange(i + 1, p.len() as int),
        None => repository_id@ == p && prefix@.len() == 0,
    }
}

/// The route of a listing: the account listing for an absent or empty
/// `prefix`; otherwise the repository before the first `/` and the rest as
/// sub-prefix.
pub fn list_route(prefix: &Option<String>) -> (r: ListRoute)
    ensures
        (prefix is None || prefix->0@.len() == 0) ==> r matches ListRoute::Account,
        prefix is Some && prefix->0@.len() > 0 ==> routes_into_repository(r, prefix->0@),
{
    match prefix {
        None => ListRoute::Account,
        Some(p) => {
            if p.as_str().is_empty() {
                ListRoute::Account
            } else {
                let (repository_id, sub) = split_at_first_slash(p.as_str());
                ListRoute::Repository { repository_id, prefix: sub }
            }
        },
    }
}

/// The page size of a listing: 1000 unless the client asks for another.
pub fn effective_max_keys(max_keys: Option<u32>) -> (r: u32)
    ensures
        max_keys matches Some(k) ==> r == k,
        max_keys is None ==> r == 1000,
{
    match max_keys {
        Some(k) => k,
        None => 1000,
    }
}

/// The listing of an account: its repositories as common prefixes
/// `<repository>/`, in order, under the account's name, with no contents.
pub fn account_listing(account_id: &str, account: &Account) -> (r: ListBucketResult)
    ensures
        r.name@ == account_id@,
        r.prefix@ == seq!['/'],
        r.key_count == 0 && r.max_keys == 0 && !r.is_truncated,
        r.contents@.len() == 0,
        r.next_continuation_token is None,
        r.common_prefixes@.len() == account.repositories@.len(),
        forall|i: int| 0 <= i < account.repositories@.len() ==> (#[trigger] r.common_prefixes@[i]).prefix@
            == account.repositories@[i]@ + seq!['/'],
{
    let mut common_prefixes: Vec<CommonPrefix> = Vec::new();
    let mut i: usize = 0;
    while i < account.repositories.len()
        invariant
            i <= account.repositories@.len(),
            common_prefixes@.len() == i,
            forall|k: int| 0 <= k < i ==> (#[trigger] common_prefixes@[k]).prefix@
                == account.repositories@[k]@ + seq!['/'],
        decreases account.repositories@.len() - i,
    {
        let mut p = account.repositories[i].clone();
        p.push('/');
        common_prefixes.push(CommonPrefix { prefix: p });
        i = i + 1;
    }
    let mut slash = String::new();
    slash.push('/');
    ListBucketResult {
        name: account_id.to_owned(),
        prefix: slash,
        key_count: 0,
        max_keys: 0,
        is_truncated: false,
        contents: Vec::new(),
        common_prefixes,
        next_continuation_token: None,
    }
}

} // verus!
