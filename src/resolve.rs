//! Resolution of a repository into a backend, and the decisions around the
//! control-plane caches: cache keys, the anonymous key, permission checks.
use vstd::prelude::*;
use crate::backend::{strip_one_slash, strip_trailing_slash, AzureRepository, Backend, S3Repository};
use crate::errors::BackendError;
use crate::model::{
    keys_of, APIKey, Account, DataConnection, RepositoryPermission, SourceProduct,
    SourceProductList, SourceProductMirror, UserIdentity,
};
use crate::text::str_eq;

verus! {

/// How long the control-plane caches keep an entry, in seconds.
pub const CACHE_TTL_SECS: u64 = 60;

/// The value of an optional string, or `d` when absent.
pub open spec fn or_default(o: Option<String>, d: Seq<char>) -> Seq<char> {
    match o {
        Some(s) => s@,
        None => d,
    }
}

fn or_default_exec(o: &Option<String>, d: &str) -> (r: String)
    ensures
        r@ == or_default(*o, d@),
{
    match o {
        Some(s) => s.clone(),
        None => d.to_owned(),
    }
}

/// A copy of an optional string.
pub fn clone_opt(o: &Option<String>) -> (r: Option<String>)
    ensures
        r == *o,
{
    match o {
        Some(s) => Some(s.clone()),
        None => None,
    }
}

/// The first index of `id` among the identifiers of a keyed list.
pub open spec fn index_of(keys: Seq<Seq<char>>, id: Seq<char>) -> Option<int>
    decreases keys.len(),
{
    if keys.len() == 0 {
        None
    } else if keys.last() == id {
        match index_of(keys.drop_last(), id) {
            Some(i) => Some(i),
            None => Some(keys.len() - 1),
        }
    } else {
        index_of(keys.drop_last(), id)
    }
}

proof fn lemma_index_of(keys: Seq<Seq<char>>, id: Seq<char>)
    ensures
        index_of(keys, id) matches Some(i) ==> 0 <= i < keys.len() && keys[i] == id,
        index_of(keys, id) is None <==> !keys.contains(id),
    decreases keys.len(),
{
    if keys.len() > 0 {
        lemma_index_of(keys.drop_last(), id);
        if keys.contains(id) && keys.last() != id {
            let k = choose|k: int| 0 <= k < keys.len() && keys[k] == id;
            assert(keys.drop_last()[k] == id);
        }
        if keys.drop_last().contains(id) {
            let k = choose|k: int| 0 <= k < keys.drop_last().len() && keys.drop_last()[k] == id;
            assert(keys[k] == id);
        }
        if keys.last() == id {
            assert(keys[keys.len() - 1] == id);
        }
    }
}

/// Where a mirror identifier stands in a mirror list.
pub fn find_mirror(mirrors: &Vec<(String, SourceProductMirror)>, id: &str) -> (r: Option<usize>)
    ensures
        r matches Some(i) ==> index_of(keys_of(mirrors@), id@) == Some(i as int) && i < mirrors@.len(),
        r is None ==> index_of(keys_of(mirrors@), id@) is None,
{
    let mut i: usize = 0;
    while i < mirrors.len()
        invariant
            i <= mirrors@.len(),
            forall|k: int| 0 <= k < i ==> mirrors@[k].0@ != id@,
        decreases mirrors@.len() - i,
    {
        if str_eq(mirrors[i].0.as_str(), id) {
            proof {
                lemma_first_index(keys_of(mirrors@), id@, i as int);
            }
            return Some(i);
        }
        i = i + 1;
    }
    proof {
        lemma_index_of(keys_of(mirrors@), id@);
        if keys_of(mirrors@).contains(id@) {
            let k = choose|k: int| 0 <= k < keys_of(mirrors@).len() && keys_of(mirrors@)[k] == id@;
            assert(mirrors@[k].0@ == id@);
        }
    }
    None
}

proof fn lemma_first_index(keys: Seq<Seq<char>>, id: Seq<char>, i: int)
    requires
        0 <= i < keys.len(),
        keys[i] == id,
        forall|k: int| 0 <= k < i ==> keys[k] != id,
    ensures
        index_of(keys, id) == Some(i),
    decreases keys.len(),
{
    if i < keys.len() - 1 {
        lemma_first_index(keys.drop_last(), id, i);
    } else {
        lemma_index_of(keys.drop_last(), id);
        if keys.drop_last().contains(id) {
            let k = choose|k: int| 0 <= k < keys.drop_last().len() && keys.drop_last()[k] == id;
            assert(keys[k] == id);
        }
    }
}

/// The connection of a product's primary mirror, or
/// `SourceRepositoryMissingPrimaryMirror` when the primary mirror is not among
/// its mirrors.
pub fn primary_connection_id(product: &SourceProduct) -> (r: Result<String, BackendError>)
    ensures
        index_of(keys_of(product.metadata.mirrors@), product.metadata.primary_mirror@) is None
            ==> r == Err::<String, BackendError>(BackendError::SourceRepositoryMissingPrimaryMirror),
        index_of(keys_of(product.metadata.mirrors@), product.metadata.primary_mirror@) matches Some(i)
            ==> (r matches Ok(c) && c@ == product.metadata.mirrors@[i].1.connection_id@),
        product.metadata.wf() ==> forall|i: int|
            0 <= i < product.metadata.mirrors@.len() && #[trigger] product.metadata.mirrors@[i].0@
                == product.metadata.primary_mirror@ ==> (r matches Ok(c) && c@
                == product.metadata.mirrors@[i].1.connection_id@),
{
    match find_mirror(&product.metadata.mirrors, product.metadata.primary_mirror.as_str()) {
        Some(j) => {
            proof {
                let keys = keys_of(product.metadata.mirrors@);
                lemma_index_of(keys, product.metadata.primary_mirror@);
                assert(keys[j as int] == product.metadata.mirrors@[j as int].0@);
            }
            Ok(product.metadata.mirrors[j].1.connection_id.clone())
        },
        None => {
            proof {
                let keys = keys_of(product.metadata.mirrors@);
                lemma_index_of(keys, product.metadata.primary_mirror@);
                assert forall|i: int|
                    0 <= i < product.metadata.mirrors@.len() implies #[trigger] product.metadata.mirrors@[i].0@
                        != product.metadata.primary_mirror@ by {
                    assert(keys[i] == product.metadata.mirrors@[i].0@);
                }
            }
            Err(BackendError::SourceRepositoryMissingPrimaryMirror)
        },
    }
}

/// The base prefix of a backend: the connection's base prefix, then the
/// mirror's prefix, without one trailing `/`.
pub open spec fn base_prefix_spec(connection_base: Option<String>, mirror_prefix: Seq<char>) -> Seq<char> {
    strip_one_slash(or_default(connection_base, Seq::empty()) + mirror_prefix)
}

/// The connection authenticates as `s3_local`.
pub open spec fn is_local(connection: DataConnection) -> bool {
    connection.authentication matches Some(a) && a.auth_type@ == "s3_local"@
}

/// The region name of an S3 connection: its region, else `us-west-2` locally
/// and `us-east-1` otherwise.
pub open spec fn region_name_spec(connection: DataConnection) -> Seq<char> {
    or_default(connection.details.region, if is_local(connection) { "us-west-2"@ } else { "us-east-1"@ })
}

/// The endpoint of an S3 connection.
pub open spec fn endpoint_spec(connection: DataConnection) -> Seq<char> {
    if is_local(connection) {
        "http://localhost:5050"@
    } else {
        "https://s3."@ + or_default(connection.details.region, "us-east-1"@) + ".amazonaws.com"@
    }
}

/// What [`build_backend`] yields, given that the primary mirror is at index `i`.
pub open spec fn backend_matches(
    b: Backend,
    account_id: Seq<char>,
    repository_id: Seq<char>,
    mirror: SourceProductMirror,
    connection: DataConnection,
) -> bool {
    let base = base_prefix_spec(connection.details.base_prefix, mirror.prefix@);
    match b {
        Backend::S3(s) => connection.details.provider@ == "s3"@ && s.account_id@ == account_id
            && s.repository_id@ == repository_id && s.region_name@ == region_name_spec(connection)
            && s.endpoint@ == endpoint_spec(connection) && s.bucket@ == or_default(
            connection.details.bucket,
            Seq::empty(),
        ) && s.base_prefix@ == base && match connection.authentication {
            Some(a) => s.auth_method@ == a.auth_type@ && s.access_key_id == a.access_key_id
                && s.secret_access_key == a.secret_access_key,
            None => s.auth_method@ == Seq::<char>::empty() && s.access_key_id is None
                && s.secret_access_key is None,
        },
        Backend::Azure(z) => connection.details.provider@ == "az"@ && z.account_id@ == account_id
            && z.repository_id@ == repository_id && z.account_name@ == or_default(
            connection.details.account_name,
            Seq::empty(),
        ) && z.container_name@ == or_default(connection.details.container_name, Seq::empty())
            && z.base_prefix@ == base,
    }
}

/// The backend of a repository, from its product record and the data
/// connection of its primary mirror: an S3 backend for provider `s3`, an Azure
/// backend for `az`, `UnexpectedDataConnectionProvider` for any other provider,
/// and `SourceRepositoryMissingPrimaryMirror` when the primary mirror is not
/// among the product's mirrors.
pub fn build_backend(
    account_id: &str,
    repository_id: &str,
    product: &SourceProduct,
    connection: &DataConnection,
) -> (r: Result<Backend, BackendError>)
    ensures
        index_of(keys_of(product.metadata.mirrors@), product.metadata.primary_mirror@) is None
            ==> r == Err::<Backend, BackendError>(BackendError::SourceRepositoryMissingPrimaryMirror),
        index_of(keys_of(product.metadata.mirrors@), product.metadata.primary_mirror@) matches Some(i)
            ==> {
            &&& (connection.details.provider@ == "s3"@ || connection.details.provider@ == "az"@)
                ==> (r matches Ok(b) && backend_matches(
                b,
                account_id@,
                repository_id@,
                product.metadata.mirrors@[i].1,
                *connection,
            ))
            &&& (connection.details.provider@ != "s3"@ && connection.details.provider@ != "az"@)
                ==> (r matches Err(BackendError::UnexpectedDataConnectionProvider { provider }) && provider@
                == connection.details.provider@)
        },
{
    let i = match find_mirror(&product.metadata.mirrors, product.metadata.primary_mirror.as_str()) {
        Some(i) => i,
        None => return Err(BackendError::SourceRepositoryMissingPrimaryMirror),
    };
    let mirror = &product.metadata.mirrors[i].1;
    let details = &connection.details;
    let mut joined = or_default_exec(&details.base_prefix, "");
    proof {
        reveal_strlit("");
        assert(""@ =~= Seq::<char>::empty());
        reveal_strlit("s3");
        reveal_strlit("az");
        assert("s3"@[0] != "az"@[0]);
    }
    joined.push_str(mirror.prefix.as_str());
    let base_prefix = strip_trailing_slash(joined.as_str());
    if str_eq(details.provider.as_str(), "s3") {
        let local = match &connection.authentication {
            Some(a) => str_eq(a.auth_type.as_str(), "s3_local"),
            None => false,
        };
        let region_name = or_default_exec(&details.region, if local { "us-west-2" } else { "us-east-1" });
        let endpoint = if local {
            "http://localhost:5050".to_owned()
        } else {
            let mut e = "https://s3.".to_owned();
            let region = or_default_exec(&details.region, "us-east-1");
            e.push_str(region.as_str());
            e.push_str(".amazonaws.com");
            e
        };
        let (auth_method, access_key_id, secret_access_key) = match &connection.authentication {
            Some(a) => (a.auth_type.clone(), clone_opt(&a.access_key_id), clone_opt(&a.secret_access_key)),
            None => (String::new(), None, None),
        };
        let s = S3Repository {
            account_id: account_id.to_owned(),
            repository_id: repository_id.to_owned(),
            region_name,
            endpoint,
            bucket: or_default_exec(&details.bucket, ""),
            base_prefix,
            auth_method,
            access_key_id,
            secret_access_key,
        };
        Ok(Backend::S3(s))
    } else if str_eq(details.provider.as_str(), "az") {
        let z = AzureRepository {
            account_id: account_id.to_owned(),
            repository_id: repository_id.to_owned(),
            account_name: or_default_exec(&details.account_name, ""),
            container_name: or_default_exec(&details.container_name, ""),
            base_prefix,
        };
        Ok(Backend::Azure(z))
    } else {
        Err(BackendError::UnexpectedDataConnectionProvider { provider: details.provider.clone() })
    }
}

/// The cache key of a repository record: `account/repository`.
pub fn repository_cache_key(account_id: &str, repository_id: &str) -> (r: String)
    ensures
        r@ == account_id@ + seq!['/'] + repository_id@,
{
    let mut r = account_id.to_owned();
    r.push('/');
    r.push_str(repository_id);
    r
}

/// The cache key of a permission set: `account/repository` for the anonymous
/// caller, `account/repository/access_key_id` otherwise.
pub fn permissions_cache_key(identity: &UserIdentity, account_id: &str, repository_id: &str) -> (r:
    String)
    ensures
        identity.api_key is None ==> r@ == account_id@ + seq!['/'] + repository_id@,
        identity.api_key matches Some(k) ==> r@ == account_id@ + seq!['/'] + repository_id@
            + seq!['/'] + k.access_key_id@,
{
    let mut r = repository_cache_key(account_id, repository_id);
    match &identity.api_key {
        Some(k) => {
            r.push('/');
            r.push_str(k.access_key_id.as_str());
        },
        None => {},
    }
    r
}

/// What to do for an access key id, given what the key cache holds for it.
#[derive(Clone, Debug)]
pub enum ApiKeyStep {
    /// The cache answers.
    Hit(APIKey),
    /// The empty id: store and return the anonymous key, with no request.
    StoreAnonymous(APIKey),
    /// Ask the control plane, then store its answer.
    Fetch,
}

/// The anonymous key: empty id, empty secret.
pub open spec fn is_anonymous_key(k: APIKey) -> bool {
    k.access_key_id@.len() == 0 && k.secret_access_key@.len() == 0
}

/// The next step of an access-key lookup: a cached key is returned as it is; on
/// a miss, the empty id gets the anonymous key and any other id is fetched.
pub fn api_key_step(access_key_id: &str, cached: Option<APIKey>) -> (r: ApiKeyStep)
    ensures
        cached matches Some(k) ==> r == ApiKeyStep::Hit(k),
        cached is None && access_key_id@.len() == 0 ==> (r matches ApiKeyStep::StoreAnonymous(k)
            && is_anonymous_key(k)),
        cached is None && access_key_id@.len() > 0 ==> r == ApiKeyStep::Fetch,
{
    match cached {
        Some(k) => ApiKeyStep::Hit(k),
        None => {
            if access_key_id.is_empty() {
                ApiKeyStep::StoreAnonymous(
                    APIKey { access_key_id: String::new(), secret_access_key: String::new() },
                )
            } else {
                ApiKeyStep::Fetch
            }
        },
    }
}

/// Whether `permission` is among `permissions`.
pub fn has_permission(permissions: &Vec<RepositoryPermission>, permission: RepositoryPermission) -> (r:
    bool)
    ensures
        r == permissions@.contains(permission),
{
    let mut i: usize = 0;
    while i < permissions.len()
        invariant
            i <= permissions@.len(),
            forall|k: int| 0 <= k < i ==> permissions@[k] != permission,
        decreases permissions@.len() - i,
    {
        if permissions[i] == permission {
            assert(permissions@[i as int] == permission);
            return true;
        }
        i = i + 1;
    }
    false
}

/// The outcome of an authorization check: `Ok(true)` when the permission is
/// held, `UnauthorizedError` otherwise.
pub fn authorization_outcome(permissions: &Vec<RepositoryPermission>, permission: RepositoryPermission) -> (r:
    Result<bool, BackendError>)
    ensures
        permissions@.contains(permission) ==> r == Ok::<bool, BackendError>(true),
        !permissions@.contains(permission) ==> r == Err::<bool, BackendError>(BackendError::UnauthorizedError),
{
    if has_permission(permissions, permission) {
        Ok(true)
    } else {
        Err(BackendError::UnauthorizedError)
    }
}

/// The account whose repositories are the products of a listing, in order.
pub fn account_from_products(list: &SourceProductList) -> (r: Account)
    ensures
        r.repositories@.len() == list.products@.len(),
        forall|i: int| 0 <= i < list.products@.len() ==> r.repositories@[i]@ == #[trigger] list.products@[i].product_id@,
{
    let mut account = Account::default();
    let mut i: usize = 0;
    while i < list.products.len()
        invariant
            i <= list.products@.len(),
            account.repositories@.len() == i,
            forall|k: int| 0 <= k < i ==> account.repositories@[k]@ == #[trigger] list.products@[k].product_id@,
        decreases list.products@.len() - i,
    {
        account.repositories.push(list.products[i].product_id.clone());
        i = i + 1;
    }
    account
}

/// The `Authorization` value that forwards a caller's key to the control
/// plane: `access_key_id secret_access_key`.
pub fn forwarded_authorization(key: &APIKey) -> (r: String)
    ensures
        r@ == key.access_key_id@ + seq![' '] + key.secret_access_key@,
{
    let mut r = key.access_key_id.clone();
    r.push(' ');
    r.push_str(key.secret_access_key.as_str());
    r
}

fn url_of(endpoint: &str, path: &str, tail: &str) -> (r: String)
    ensures
        r@ == endpoint@ + path@ + tail@,
{
    let mut r = endpoint.to_owned();
    r.push_str(path);
    r.push_str(tail);
    r
}

/// `{endpoint}/api/v1/products/{account}/{repository}`.
pub fn product_url(endpoint: &str, account_id: &str, repository_id: &str) -> (r: String)
    ensures
        r@ == endpoint@ + "/api/v1/products/"@ + account_id@ + seq!['/'] + repository_id@,
{
    let key = repository_cache_key(account_id, repository_id);
    url_of(endpoint, "/api/v1/products/", key.as_str())
}

/// `{endpoint}/api/v1/products/{account}/{repository}/permissions`.
pub fn permissions_url(endpoint: &str, account_id: &str, repository_id: &str) -> (r: String)
    ensures
        r@ == endpoint@ + "/api/v1/products/"@ + account_id@ + seq!['/'] + repository_id@
            + "/permissions"@,
{
    let mut r = product_url(endpoint, account_id, repository_id);
    r.push_str("/permissions");
    r
}

/// `{endpoint}/api/v1/products/{account}`.
pub fn account_url(endpoint: &str, account_id: &str) -> (r: String)
    ensures
        r@ == endpoint@ + "/api/v1/products/"@ + account_id@,
{
    url_of(endpoint, "/api/v1/products/", account_id)
}

/// `{endpoint}/api/v1/data-connections/{id}`.
pub fn data_connection_url(endpoint: &str, data_connection_id: &str) -> (r: String)
    ensures
        r@ == endpoint@ + "/api/v1/data-connections/"@ + data_connection_id@,
{
    url_of(endpoint, "/api/v1/data-connections/", data_connection_id)
}

/// `{endpoint}/api/v1/api-keys/{id}/auth`.
pub fn api_key_url(endpoint: &str, access_key_id: &str) -> (r: String)
    ensures
        r@ == endpoint@ + "/api/v1/api-keys/"@ + access_key_id@ + "/auth"@,
{
    let mut r = url_of(endpoint, "/api/v1/api-keys/", access_key_id);
    r.push_str("/auth");
    r
}

} // verus!
