//! Records of the control plane: repositories (products), data connections,
//! API keys, permissions and accounts.
use vstd::prelude::*;

verus! {

/// Access a caller may hold on a repository.
#[derive(Clone, Copy, Debug, PartialEq, Eq, Structural)]
pub enum RepositoryPermission {
    Read,
    Write,
}

/// Who can discover a product.
#[derive(Clone, Copy, Debug, PartialEq, Eq, Structural)]
pub enum ProductVisibility {
    Public,
    Unlisted,
    Restricted,
}

/// How a product's data may be accessed.
#[derive(Clone, Copy, Debug, PartialEq, Eq, Structural)]
pub enum ProductDataMode {
    Open,
    Subscription,
    Private,
}

/// Storage behind a product mirror.
#[derive(Clone, Copy, Debug, PartialEq, Eq, Structural)]
pub enum StorageType {
    S3,
    Azure,
    Gcs,
    Minio,
    Ceph,
}

/// A role granted on a product.
#[derive(Clone, Copy, Debug, PartialEq, Eq, Structural)]
pub enum ProductRole {
    Admin,
    Contributor,
    Viewer,
}

/// Kind of account.
#[derive(Clone, Copy, Debug, PartialEq, Eq, Structural)]
pub enum AccountType {
    Individual,
    Organization,
}

/// Verification state of an account domain.
#[derive(Clone, Copy, Debug, PartialEq, Eq, Structural)]
pub enum DomainStatus {
    Unverified,
    Pending,
    Verified,
}

/// How an account domain is verified.
#[derive(Clone, Copy, Debug, PartialEq, Eq, Structural)]
pub enum VerificationMethod {
    Dns,
    Html,
    File,
}

/// An access key pair. The pair of empty strings stands for the anonymous caller.
#[derive(Clone, Debug)]
pub struct APIKey {
    pub access_key_id: String,
    pub secret_access_key: String,
}

/// The caller of a request: a verified key, or anonymous.
#[derive(Clone, Debug)]
pub struct UserIdentity {
    pub api_key: Option<APIKey>,
}

/// The repositories of an account.
pub struct Account {
    pub repositories: Vec<String>,
}

impl Account {
    /// An account without repositories.
    pub fn default() -> (r: Account)
        ensures
            r.repositories@.len() == 0,
    {
        Account { repositories: Vec::new() }
    }
}

/// Location settings of a mirror.
#[derive(Clone, Debug)]
pub struct SourceProductMirrorConfig {
    pub region: Option<String>,
    pub bucket: Option<String>,
    pub container: Option<String>,
    pub endpoint: Option<String>,
}

/// One physical copy of a product.
#[derive(Clone, Debug)]
pub struct SourceProductMirror {
    pub storage_type: StorageType,
    pub connection_id: String,
    pub prefix: String,
    pub config: SourceProductMirrorConfig,
    pub is_primary: bool,
}

/// A role granted to an account on a product.
#[derive(Clone, Debug)]
pub struct SourceProductRole {
    pub account_id: String,
    pub role: ProductRole,
    pub granted_at: String,
    pub granted_by: String,
}

/// Mirrors, primary mirror, tags and roles of a product. `mirrors` and `roles`
/// map identifiers to records; each identifier appears once.
#[derive(Clone, Debug)]
pub struct SourceProductMetadata {
    pub mirrors: Vec<(String, SourceProductMirror)>,
    pub primary_mirror: String,
    pub tags: Option<Vec<String>>,
    pub roles: Vec<(String, SourceProductRole)>,
}

/// The identifiers of a keyed list, in order.
pub open spec fn keys_of<T>(entries: Seq<(String, T)>) -> Seq<Seq<char>> {
    entries.map_values(|e: (String, T)| e.0@)
}

/// Each identifier of a keyed list appears once.
pub open spec fn unique_keys<T>(entries: Seq<(String, T)>) -> bool {
    forall|i: int, j: int|
        0 <= i < entries.len() && 0 <= j < entries.len() && i != j ==> entries[i].0@
            != entries[j].0@
}

impl SourceProductMetadata {
    /// Mirror and role identifiers are unique.
    pub open spec fn wf(&self) -> bool {
        unique_keys(self.mirrors@) && unique_keys(self.roles@)
    }
}

/// A verified domain of an account.
#[derive(Clone, Debug)]
pub struct AccountDomain {
    pub domain: String,
    pub status: DomainStatus,
    pub verification_method: Option<VerificationMethod>,
    pub verification_token: Option<String>,
    pub verified_at: Option<String>,
    pub created_at: String,
    pub expires_at: Option<String>,
}

/// An e-mail address of an account.
#[derive(Clone, Debug)]
pub struct SourceAccountEmail {
    pub address: String,
    pub verified: bool,
    pub verified_at: Option<String>,
    pub is_primary: bool,
    pub added_at: String,
}

/// Public profile of an account.
#[derive(Clone, Debug)]
pub struct SourceProductAccountMetadataPublic {
    pub bio: Option<String>,
    pub domains: Option<Vec<AccountDomain>>,
    pub location: Option<String>,
    pub owner_account_id: Option<String>,
    pub admin_account_ids: Option<Vec<String>>,
    pub member_account_ids: Option<Vec<String>>,
}

/// The account that owns a product. `metadata_private` maps names to JSON texts.
#[derive(Clone, Debug)]
pub struct SourceProductAccount {
    pub account_id: String,
    pub account_type: AccountType,
    pub name: String,
    pub identity_id: Option<String>,
    pub metadata_public: SourceProductAccountMetadataPublic,
    pub emails: Option<Vec<SourceAccountEmail>>,
    pub created_at: String,
    pub updated_at: String,
    pub disabled: bool,
    pub flags: Vec<String>,
    pub metadata_private: Option<Vec<(String, String)>>,
}

/// A repository (product) as the control plane describes it.
#[derive(Clone, Debug)]
pub struct SourceProduct {
    pub product_id: String,
    pub account_id: String,
    pub title: String,
    pub description: String,
    pub created_at: String,
    pub updated_at: String,
    pub visibility: ProductVisibility,
    pub disabled: bool,
    pub data_mode: ProductDataMode,
    pub featured: i32,
    pub metadata: SourceProductMetadata,
    pub account: Option<SourceProductAccount>,
}

/// A page of products.
#[derive(Clone, Debug)]
pub struct SourceProductList {
    pub products: Vec<SourceProduct>,
    pub next: Option<String>,
}

/// Provider-specific location of a data connection.
#[derive(Clone, Debug)]
pub struct DataConnectionDetails {
    pub provider: String,
    pub region: Option<String>,
    pub base_prefix: Option<String>,
    pub bucket: Option<String>,
    pub account_name: Option<String>,
    pub container_name: Option<String>,
}

/// How the gateway authenticates against a data connection.
#[derive(Clone, Debug)]
pub struct DataConnectionAuthentication {
    pub auth_type: String,
    pub access_key_id: Option<String>,
    pub secret_access_key: Option<String>,
}

/// Credentials and location of one physical backend.
#[derive(Clone, Debug)]
pub struct DataConnection {
    pub data_connection_id: String,
    pub name: String,
    pub prefix_template: String,
    pub read_only: bool,
    pub allowed_data_modes: Vec<String>,
    pub required_flag: Option<String>,
    pub details: DataConnectionDetails,
    pub authentication: Option<DataConnectionAuthentication>,
}

} // verus!
