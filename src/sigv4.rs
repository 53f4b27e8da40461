//! Signature V4 verification: reading the `Authorization` header, the string to
//! sign, the signing-key chain and the comparison of signatures.
//!
//! Verification runs in two steps so that the key lookup, which needs the
//! network, stays with the caller: [`prepare_identity`] reads what a request
//! claims, and [`complete_identity`] checks the claim against the looked-up key.
//! Any failure, a wrong signature included, leaves the caller anonymous: the
//! request goes on unsigned and is then held to the repository's anonymous
//! permissions.
use vstd::prelude::*;
use vstd::utf8::encode_utf8;
use crate::canonical::{
    create_canonical_request, canonical_request_spec, find_header, header_lookup, pair_views,
    str_views, TextPair,
};
use crate::digest::{hex_encode, hex_lower, hmac_sha256, hmac_sha256_of, sha256, sha256_of};
use crate::errors::BackendError;
use crate::model::APIKey;
use crate::text::{find_from, find_from_exec, lemma_find_from_bounds, str_eq, string_of_range, to_chars};

verus! {

/// The pieces of `s` between occurrences of `sep`, from index `start` on (as `str::split`).
pub open spec fn split_from(s: Seq<char>, sep: Seq<char>, start: int) -> Seq<Seq<char>>
    decreases s.len() + 1 - start,
{
    if start < 0 || start > s.len() || sep.len() == 0 {
        seq![]
    } else {
        match find_from(s, sep, start) {
            Some(i) => if start <= i && i + sep.len() <= s.len() {
                seq![s.subrange(start, i)] + split_from(s, sep, i + sep.len())
            } else {
                seq![]
            },
            None => seq![s.subrange(start, s.len() as int)],
        }
    }
}

/// The pieces of `s` between occurrences of `sep` (as `str::split`).
pub open spec fn split_spec(s: Seq<char>, sep: Seq<char>) -> Seq<Seq<char>> {
    split_from(s, sep, 0)
}

/// The piece after the first occurrence of `marker`, up to the next one; empty
/// when `marker` does not occur (as `split(marker).nth(1).unwrap_or("")`).
pub open spec fn after_marker(s: Seq<char>, marker: Seq<char>) -> Seq<char> {
    if split_spec(s, marker).len() >= 2 {
        split_spec(s, marker)[1]
    } else {
        seq![]
    }
}

pub proof fn lemma_split_nonempty(s: Seq<char>, sep: Seq<char>)
    requires
        sep.len() > 0,
    ensures
        split_spec(s, sep).len() >= 1,
{
    lemma_find_from_bounds(s, sep, 0);
}

/// Splits `s` at each occurrence of `sep`.
pub fn split_text(s: &str, sep: &str) -> (r: Vec<String>)
    requires
        sep@.len() > 0,
    ensures
        str_views(r@) == split_spec(s@, sep@),
{
    let v = to_chars(s);
    let p = to_chars(sep);
    let n = v.len();
    let mut pieces: Vec<String> = Vec::new();
    let mut start: usize = 0;
    loop
        invariant
            n == v@.len(),
            v@ == s@,
            p@ == sep@,
            p@.len() > 0,
            start <= v@.len(),
            str_views(pieces@) + split_from(v@, p@, start as int) == split_from(v@, p@, 0),
        decreases v@.len() + 1 - start,
    {
        let ghost prev = str_views(pieces@);
        match find_from_exec(&v, &p, start) {
            Some(i) => {
                let piece = string_of_range(&v, start, i);
                pieces.push(piece);
                assert(str_views(pieces@) =~= prev.push(v@.subrange(start as int, i as int)));
                assert(split_from(v@, p@, start as int) == seq![v@.subrange(start as int, i as int)]
                    + split_from(v@, p@, i + p@.len()));
                assert(str_views(pieces@) + split_from(v@, p@, i + p@.len()) =~= prev
                    + split_from(v@, p@, start as int));
                start = i + p.len();
            },
            None => {
                let piece = string_of_range(&v, start, v.len());
                pieces.push(piece);
                assert(str_views(pieces@) =~= prev.push(v@.subrange(start as int, v@.len() as int)));
                assert(str_views(pieces@) =~= split_from(v@, p@, 0));
                return pieces;
            },
        }
    }
}

fn after_marker_exec(s: &str, marker: &str) -> (r: String)
    requires
        marker@.len() > 0,
    ensures
        r@ == after_marker(s@, marker@),
{
    let pieces = split_text(s, marker);
    if pieces.len() >= 2 {
        assert(str_views(pieces@)[1] == pieces@[1]@);
        pieces[1].clone()
    } else {
        String::new()
    }
}

/// Why a request carries no verified identity.
#[derive(Clone, Debug)]
pub enum AuthFailure {
    MissingAuthorization,
    InvalidAlgorithm,
    MalformedAuthorization,
    MissingContentHash,
    InvalidPath,
    MissingDate,
    /// The key could not be looked up; the text of the lookup failure.
    KeyUnavailable(String),
    SignatureMismatch,
}

impl AuthFailure {
    pub open spec fn message_spec(&self) -> Seq<char> {
        match self {
            AuthFailure::MissingAuthorization => "No Authorization header found"@,
            AuthFailure::InvalidAlgorithm => "Invalid Signature Algorithm"@,
            AuthFailure::MalformedAuthorization => "Malformed Authorization header"@,
            AuthFailure::MissingContentHash => "No x-amz-content-sha256 header found"@,
            AuthFailure::InvalidPath => "Request path is not UTF-8 once decoded"@,
            AuthFailure::MissingDate => "No x-amz-date header found"@,
            AuthFailure::KeyUnavailable(m) => m@,
            AuthFailure::SignatureMismatch => "Signature mismatch"@,
        }
    }

    /// The text of the failure.
    pub fn message(&self) -> (r: String)
        ensures
            r@ == self.message_spec(),
    {
        match self {
            AuthFailure::MissingAuthorization => "No Authorization header found".to_owned(),
            AuthFailure::InvalidAlgorithm => "Invalid Signature Algorithm".to_owned(),
            AuthFailure::MalformedAuthorization => "Malformed Authorization header".to_owned(),
            AuthFailure::MissingContentHash => "No x-amz-content-sha256 header found".to_owned(),
            AuthFailure::InvalidPath => "Request path is not UTF-8 once decoded".to_owned(),
            AuthFailure::MissingDate => "No x-amz-date header found".to_owned(),
            AuthFailure::KeyUnavailable(m) => m.clone(),
            AuthFailure::SignatureMismatch => "Signature mismatch".to_owned(),
        }
    }
}

/// What a signed request claims, before its key is known.
pub struct PendingView {
    pub access_key_id: Seq<char>,
    pub date: Seq<char>,
    pub region: Seq<char>,
    pub service: Seq<char>,
    pub signature: Seq<char>,
    pub datetime: Seq<char>,
    pub canonical_request: Seq<char>,
}

/// A signed request whose key remains to be looked up.
#[derive(Clone, Debug)]
pub struct PendingIdentity {
    pub access_key_id: String,
    pub date: String,
    pub region: String,
    pub service: String,
    pub signature: String,
    pub datetime: String,
    pub canonical_request: String,
}

impl View for PendingIdentity {
    type V = PendingView;

    open spec fn view(&self) -> PendingView {
        PendingView {
            access_key_id: self.access_key_id@,
            date: self.date@,
            region: self.region@,
            service: self.service@,
            signature: self.signature@,
            datetime: self.datetime@,
            canonical_request: self.canonical_request@,
        }
    }
}

/// The algorithm word of an `Authorization` header: its text up to the first space.
pub open spec fn algorithm_of(auth: Seq<char>) -> Seq<char> {
    split_spec(auth, seq![' '])[0]
}

/// What the headers of a request establish about its signature: the first
/// failure in the order header, algorithm, parameters, payload hash, path,
/// date; or what the request claims.
pub open spec fn identity_request_spec(
    method: Seq<char>,
    path: Seq<char>,
    headers: Seq<TextPair>,
    query: Seq<char>,
    body: Seq<u8>,
) -> Result<PendingView, AuthFailure> {
    match header_lookup(headers, "authorization"@) {
        None => Err(AuthFailure::MissingAuthorization),
        Some(auth) => if algorithm_of(auth) != "AWS4-HMAC-SHA256"@ {
            Err(AuthFailure::InvalidAlgorithm)
        } else {
            let parts = split_spec(auth, ", "@);
            if parts.len() < 3 {
                Err(AuthFailure::MalformedAuthorization)
            } else {
                let credential = after_marker(parts[0], "Credential="@);
                let signed = split_spec(after_marker(parts[1], "SignedHeaders="@), seq![';']);
                let signature = after_marker(parts[2], "Signature="@);
                let cparts = split_spec(credential, seq!['/']);
                if cparts.len() < 4 {
                    Err(AuthFailure::MalformedAuthorization)
                } else {
                    match header_lookup(headers, "x-amz-content-sha256"@) {
                        None => Err(AuthFailure::MissingContentHash),
                        Some(content_hash) => match canonical_request_spec(
                            method,
                            path,
                            headers,
                            signed,
                            query,
                            body,
                            content_hash,
                        ) {
                            None => Err(AuthFailure::InvalidPath),
                            Some(creq) => match header_lookup(headers, "x-amz-date"@) {
                                None => Err(AuthFailure::MissingDate),
                                Some(datetime) => Ok(
                                    PendingView {
                                        access_key_id: cparts[0],
                                        date: cparts[1],
                                        region: cparts[2],
                                        service: cparts[3],
                                        signature,
                                        datetime,
                                        canonical_request: creq,
                                    },
                                ),
                            },
                        },
                    }
                }
            }
        }
    }
}

/// Reads the signature claims of a request (see [`identity_request_spec`]).
/// Header names are matched in lower case.
pub fn prepare_identity(
    method: &str,
    path: &str,
    headers: &Vec<(String, String)>,
    query_string: &str,
    body: &[u8],
) -> (r: Result<PendingIdentity, AuthFailure>)
    ensures
        r matches Ok(p) ==> identity_request_spec(method@, path@, pair_views(headers@), query_string@, body@) == Ok::<PendingView, AuthFailure>(p@),
        r matches Err(e) ==> identity_request_spec(method@, path@, pair_views(headers@), query_string@, body@) == Err::<PendingView, AuthFailure>(e),
{
    let auth = match find_header(headers, "authorization") {
        Some(a) => a,
        None => return Err(AuthFailure::MissingAuthorization),
    };
    proof {
        reveal_strlit(" ");
        assert(" "@ =~= seq![' ']);
        lemma_split_nonempty(auth@, seq![' ']);
    }
    let words = split_text(auth.as_str(), " ");
    assert(str_views(words@)[0] == words@[0]@);
    if !str_eq(words[0].as_str(), "AWS4-HMAC-SHA256") {
        return Err(AuthFailure::InvalidAlgorithm);
    }
    proof {
        reveal_strlit(", ");
        reveal_strlit("Credential=");
        reveal_strlit("SignedHeaders=");
        reveal_strlit("Signature=");
        reveal_strlit(";");
        reveal_strlit("/");
        assert(";"@ =~= seq![';']);
        assert("/"@ =~= seq!['/']);
    }
    let parts = split_text(auth.as_str(), ", ");
    if parts.len() < 3 {
        return Err(AuthFailure::MalformedAuthorization);
    }
    assert(str_views(parts@)[0] == parts@[0]@);
    assert(str_views(parts@)[1] == parts@[1]@);
    assert(str_views(parts@)[2] == parts@[2]@);
    let credential = after_marker_exec(parts[0].as_str(), "Credential=");
    let signed_list = after_marker_exec(parts[1].as_str(), "SignedHeaders=");
    let signed = split_text(signed_list.as_str(), ";");
    let signature = after_marker_exec(parts[2].as_str(), "Signature=");
    let cparts = split_text(credential.as_str(), "/");
    if cparts.len() < 4 {
        return Err(AuthFailure::MalformedAuthorization);
    }
    assert(str_views(cparts@)[0] == cparts@[0]@);
    assert(str_views(cparts@)[1] == cparts@[1]@);
    assert(str_views(cparts@)[2] == cparts@[2]@);
    assert(str_views(cparts@)[3] == cparts@[3]@);
    let content_hash = match find_header(headers, "x-amz-content-sha256") {
        Some(h) => h,
        None => return Err(AuthFailure::MissingContentHash),
    };
    let canonical_request = match create_canonical_request(
        method,
        path,
        headers,
        &signed,
        query_string,
        body,
        content_hash.as_str(),
    ) {
        Some(c) => c,
        None => return Err(AuthFailure::InvalidPath),
    };
    let datetime = match find_header(headers, "x-amz-date") {
        Some(d) => d,
        None => return Err(AuthFailure::MissingDate),
    };
    Ok(
        PendingIdentity {
            access_key_id: cparts[0].clone(),
            date: cparts[1].clone(),
            region: cparts[2].clone(),
            service: cparts[3].clone(),
            signature,
            datetime,
            canonical_request,
        },
    )
}

/// The credential scope `date/region/service/aws4_request`.
pub open spec fn scope_spec(date: Seq<char>, region: Seq<char>, service: Seq<char>) -> Seq<char> {
    date + seq!['/'] + region + seq!['/'] + service + "/aws4_request"@
}

/// The string to sign: algorithm, time stamp, scope and the hash of the
/// canonical request, one per line.
pub open spec fn string_to_sign_spec(canonical: Seq<char>, datetime: Seq<char>, scope: Seq<char>) -> Seq<
    char,
> {
    "AWS4-HMAC-SHA256"@ + seq!['\n'] + datetime + seq!['\n'] + scope + seq!['\n'] + hex_lower(
        sha256_of(encode_utf8(canonical)),
    )
}

/// The signing key: `AWS4` and the secret, chained through date, region,
/// service and `aws4_request` with HMAC-SHA256.
pub open spec fn signing_key_spec(
    secret: Seq<char>,
    date: Seq<char>,
    region: Seq<char>,
    service: Seq<char>,
) -> Seq<u8> {
    hmac_sha256_of(
        hmac_sha256_of(
            hmac_sha256_of(
                hmac_sha256_of(encode_utf8("AWS4"@ + secret), encode_utf8(date)),
                encode_utf8(region),
            ),
            encode_utf8(service),
        ),
        encode_utf8("aws4_request"@),
    )
}

/// The signature: lower-case hexadecimal HMAC-SHA256 of the string to sign
/// under the signing key.
pub open spec fn signature_spec(
    secret: Seq<char>,
    date: Seq<char>,
    region: Seq<char>,
    service: Seq<char>,
    string_to_sign: Seq<char>,
) -> Seq<char> {
    hex_lower(hmac_sha256_of(signing_key_spec(secret, date, region, service), encode_utf8(string_to_sign)))
}

/// The string to sign (see [`string_to_sign_spec`]).
pub fn create_string_to_sign(canonical_request: &str, datetime: &str, credential_scope: &str) -> (r:
    String)
    ensures
        r@ == string_to_sign_spec(canonical_request@, datetime@, credential_scope@),
{
    let mut r = "AWS4-HMAC-SHA256".to_owned();
    r.push('\n');
    r.push_str(datetime);
    r.push('\n');
    r.push_str(credential_scope);
    r.push('\n');
    let d = sha256(canonical_request.as_bytes());
    let h = hex_encode(d.as_slice());
    r.push_str(h.as_str());
    r
}

/// The credential scope (see [`scope_spec`]).
pub fn credential_scope(date: &str, region: &str, service: &str) -> (r: String)
    ensures
        r@ == scope_spec(date@, region@, service@),
{
    let mut r = date.to_owned();
    r.push('/');
    r.push_str(region);
    r.push('/');
    r.push_str(service);
    r.push_str("/aws4_request");
    r
}

/// The Signature V4 signature (see [`signature_spec`]).
pub fn calculate_signature(
    key: &str,
    date: &str,
    region: &str,
    service: &str,
    string_to_sign: &str,
) -> (r: String)
    ensures
        r@ == signature_spec(key@, date@, region@, service@, string_to_sign@),
{
    let mut secret = "AWS4".to_owned();
    secret.push_str(key);
    let k_date = hmac_sha256(secret.as_str().as_bytes(), date.as_bytes());
    let k_region = hmac_sha256(k_date.as_slice(), region.as_bytes());
    let k_service = hmac_sha256(k_region.as_slice(), service.as_bytes());
    let k_signing = hmac_sha256(k_service.as_slice(), "aws4_request".as_bytes());
    let tag = hmac_sha256(k_signing.as_slice(), string_to_sign.as_bytes());
    hex_encode(tag.as_slice())
}

/// The signature a request must carry when signed with `secret`.
pub open spec fn expected_signature(p: PendingView, secret: Seq<char>) -> Seq<char> {
    signature_spec(
        secret,
        p.date,
        p.region,
        p.service,
        string_to_sign_spec(p.canonical_request, p.datetime, scope_spec(p.date, p.region, p.service)),
    )
}

/// Finishes verification once the key of the request is looked up: the key when
/// the request's signature is the one it yields, else the reason.
pub fn complete_identity(pending: &PendingIdentity, key: Result<APIKey, BackendError>) -> (r: Result<
    APIKey,
    AuthFailure,
>)
    ensures
        key is Err ==> (r matches Err(AuthFailure::KeyUnavailable(m)) && m@
            == key->Err_0.message_spec()),
        key is Ok && pending.signature@ == expected_signature(
            pending@,
            key->Ok_0.secret_access_key@,
        ) ==> r == Ok::<APIKey, AuthFailure>(key->Ok_0),
        key is Ok && pending.signature@ != expected_signature(
            pending@,
            key->Ok_0.secret_access_key@,
        ) ==> r == Err::<APIKey, AuthFailure>(AuthFailure::SignatureMismatch),
{
    let api_key = match key {
        Ok(k) => k,
        Err(e) => return Err(AuthFailure::KeyUnavailable(e.to_string())),
    };
    let scope = credential_scope(pending.date.as_str(), pending.region.as_str(), pending.service.as_str());
    let sts = create_string_to_sign(pending.canonical_request.as_str(), pending.datetime.as_str(), scope.as_str());
    let computed = calculate_signature(
        api_key.secret_access_key.as_str(),
        pending.date.as_str(),
        pending.region.as_str(),
        pending.service.as_str(),
        sts.as_str(),
    );
    if str_eq(computed.as_str(), pending.signature.as_str()) {
        Ok(api_key)
    } else {
        Err(AuthFailure::SignatureMismatch)
    }
}

} // verus!
