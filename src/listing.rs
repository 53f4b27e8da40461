//! Listing pages: backend keys are rewritten so that clients see keys rooted
//! at the repository.
use vstd::prelude::*;
use crate::backend::{
    backend_key_spec, strip_slashes, AzureRepository, CommonPrefix, Content, ListBucketResult,
    S3Repository,
};
use crate::resolve::{clone_opt, or_default};
use crate::text::{find, occurs_at, replace_first, replace_first_spec, starts_with};

verus! {

/// One object of an S3 listing, as the SDK reports it.
#[derive(Clone, Debug)]
pub struct S3ListedObject {
    pub key: Option<String>,
    pub last_modified: Option<String>,
    pub etag: Option<String>,
    pub size: Option<i64>,
    pub storage_class: Option<String>,
}

/// One page of an S3 listing, as the SDK reports it.
#[derive(Clone, Debug)]
pub struct S3ListPage {
    pub key_count: Option<i64>,
    pub max_keys: Option<i64>,
    pub is_truncated: Option<bool>,
    pub next_continuation_token: Option<String>,
    pub contents: Vec<S3ListedObject>,
    pub common_prefixes: Vec<Option<String>>,
}

/// One item of an Azure blob listing: a blob (its last modification already
/// written as RFC 3339) or a prefix.
#[derive(Clone, Debug)]
pub enum AzureListedItem {
    Blob { name: String, last_modified: String, etag: String, size: u64, blob_type: String },
    Prefix { name: String },
}

/// One page of an Azure blob listing.
#[derive(Clone, Debug)]
pub struct AzureListPage {
    pub max_results: Option<u32>,
    pub next_marker: Option<String>,
    pub items: Vec<AzureListedItem>,
}

/// The key a client sees for a backend key.
pub open spec fn client_key(key: Seq<char>, base_prefix: Seq<char>, repository_id: Seq<char>) -> Seq<char> {
    replace_first_spec(key, base_prefix, repository_id)
}

/// A listed key that starts with the base prefix is seen by clients with the
/// repository id in place of that prefix, and is otherwise unchanged.
pub proof fn lemma_listing_keys_rooted_at_repository(
    key: Seq<char>,
    base_prefix: Seq<char>,
    repository_id: Seq<char>,
)
    requires
        starts_with(key, base_prefix),
    ensures
        client_key(key, base_prefix, repository_id) == repository_id + key.subrange(
            base_prefix.len() as int,
            key.len() as int,
        ),
        starts_with(client_key(key, base_prefix, repository_id), repository_id),
{
    assert(occurs_at(key, base_prefix, 0));
    assert(find(key, base_prefix) == Some(0int));
    let r = client_key(key, base_prefix, repository_id);
    assert(key.subrange(0, 0) + repository_id =~= repository_id);
    assert(r.subrange(0, repository_id.len() as int) =~= repository_id);
}

/// A listed object as key, modification time, entity tag, size and storage class.
pub type ContentView = (Seq<char>, Seq<char>, Seq<char>, i64, Seq<char>);

/// The size of a blob as S3 reports it, saturated at `i64::MAX`.
pub open spec fn blob_size(size: u64) -> i64 {
    if size <= i64::MAX as u64 {
        size as i64
    } else {
        i64::MAX
    }
}

/// The objects clients see for the blobs of an Azure page, in order: the name
/// rewritten, the blob type as storage class.
pub open spec fn blob_entries(items: Seq<AzureListedItem>, base: Seq<char>, repository_id: Seq<char>) -> Seq<ContentView>
    decreases items.len(),
{
    if items.len() == 0 {
        seq![]
    } else {
        let rest = blob_entries(items.drop_last(), base, repository_id);
        match items.last() {
            AzureListedItem::Blob { name, last_modified, etag, size, blob_type } => rest.push(
                (client_key(name@, base, repository_id), last_modified@, etag@, blob_size(size), blob_type@),
            ),
            AzureListedItem::Prefix { .. } => rest,
        }
    }
}

/// The prefixes clients see for the prefixes of an Azure page, in order.
pub open spec fn prefix_keys(items: Seq<AzureListedItem>, base: Seq<char>, repository_id: Seq<char>) -> Seq<Seq<char>>
    decreases items.len(),
{
    if items.len() == 0 {
        seq![]
    } else {
        let rest = prefix_keys(items.drop_last(), base, repository_id);
        match items.last() {
            AzureListedItem::Prefix { name } => rest.push(client_key(name@, base, repository_id)),
            AzureListedItem::Blob { .. } => rest,
        }
    }
}

/// The listed contents, field by field.
pub open spec fn content_views(c: Seq<Content>) -> Seq<ContentView> {
    c.map_values(|x: Content| (x.key@, x.last_modified@, x.etag@, x.size, x.storage_class@))
}

/// The listed common prefixes.
pub open spec fn prefix_texts(c: Seq<CommonPrefix>) -> Seq<Seq<char>> {
    c.map_values(|x: CommonPrefix| x.prefix@)
}

/// `r` lists Azure page `p`: its marker as continuation, its blobs as contents
/// and its prefixes as common prefixes, in order, names rewritten from `base`
/// to the repository id.
pub open spec fn azure_page_listed(r: ListBucketResult, p: AzureListPage, base: Seq<char>, repository_id: Seq<char>) -> bool {
    &&& r.max_keys == option_or(p.max_results, 0) as i64
    &&& r.is_truncated == (p.next_marker is Some)
    &&& r.next_continuation_token == p.next_marker
    &&& content_views(r.contents@) == blob_entries(p.items@, base, repository_id)
    &&& prefix_texts(r.common_prefixes@) == prefix_keys(p.items@, base, repository_id)
}

/// The value of an option, or `d` when absent.
pub open spec fn option_or<T>(o: Option<T>, d: T) -> T {
    match o {
        Some(v) => v,
        None => d,
    }
}

fn text_or_empty(o: &Option<String>) -> (r: String)
    ensures
        r@ == or_default(*o, Seq::empty()),
{
    match o {
        Some(s) => s.clone(),
        None => String::new(),
    }
}

impl S3Repository {
    /// The backend prefix a listing of client prefix `prefix` asks for.
    pub fn list_prefix(&self, prefix: &str) -> (r: String)
        ensures
            r@ == backend_key_spec(self.base_prefix@, prefix@),
    {
        self.object_key(prefix)
    }

    /// The listing page a client sees for an S3 page: named after the account,
    /// prefix `repository/prefix`, keys and prefixes rewritten from the base
    /// prefix to the repository id, absent fields defaulted (`now` for a
    /// missing modification time).
    pub fn list_result(&self, prefix: &str, page: &S3ListPage, now: &str) -> (r: ListBucketResult)
        ensures
            r.name@ == self.account_id@,
            r.prefix@ == self.repository_id@ + seq!['/'] + prefix@,
            r.key_count == option_or(page.key_count, 0),
            r.max_keys == option_or(page.max_keys, 0),
            r.is_truncated == option_or(page.is_truncated, false),
            r.next_continuation_token == page.next_continuation_token,
            r.contents@.len() == page.contents@.len(),
            forall|i: int| 0 <= i < page.contents@.len() ==> {
                let c = #[trigger] r.contents@[i];
                let o = page.contents@[i];
                &&& c.key@ == client_key(or_default(o.key, Seq::empty()), self.base_prefix@, self.repository_id@)
                &&& c.last_modified@ == or_default(o.last_modified, now@)
                &&& c.etag@ == or_default(o.etag, Seq::empty())
                &&& c.size == option_or(o.size, 0)
                &&& c.storage_class@ == or_default(o.storage_class, Seq::empty())
            },
            r.common_prefixes@.len() == page.common_prefixes@.len(),
            forall|i: int| 0 <= i < page.common_prefixes@.len() ==> (#[trigger] r.common_prefixes@[i]).prefix@
                == client_key(or_default(page.common_prefixes@[i], Seq::empty()), self.base_prefix@, self.repository_id@),
    {
        let mut contents: Vec<Content> = Vec::new();
        let mut i: usize = 0;
        while i < page.contents.len()
            invariant
                i <= page.contents@.len(),
                contents@.len() == i,
                forall|k: int| 0 <= k < i ==> {
                    let c = #[trigger] contents@[k];
                    let o = page.contents@[k];
                    &&& c.key@ == client_key(or_default(o.key, Seq::empty()), self.base_prefix@, self.repository_id@)
                    &&& c.last_modified@ == or_default(o.last_modified, now@)
                    &&& c.etag@ == or_default(o.etag, Seq::empty())
                    &&& c.size == option_or(o.size, 0)
                    &&& c.storage_class@ == or_default(o.storage_class, Seq::empty())
                },
            decreases page.contents@.len() - i,
        {
            let o = &page.contents[i];
            let key = replace_first(text_or_empty(&o.key), self.base_prefix.clone(), self.repository_id.clone());
            let last_modified = match &o.last_modified {
                Some(t) => t.clone(),
                None => now.to_owned(),
            };
            let size = match o.size {
                Some(s) => s,
                None => 0,
            };
            contents.push(
                Content {
                    key,
                    last_modified,
                    etag: text_or_empty(&o.etag),
                    size,
                    storage_class: text_or_empty(&o.storage_class),
                },
            );
            i = i + 1;
        }
        let mut common_prefixes: Vec<CommonPrefix> = Vec::new();
        let mut j: usize = 0;
        while j < page.common_prefixes.len()
            invariant
                j <= page.common_prefixes@.len(),
                common_prefixes@.len() == j,
                forall|k: int| 0 <= k < j ==> (#[trigger] common_prefixes@[k]).prefix@ == client_key(
                    or_default(page.common_prefixes@[k], Seq::empty()),
                    self.base_prefix@,
                    self.repository_id@,
                ),
            decreases page.common_prefixes@.len() - j,
        {
            let p = replace_first(
                text_or_empty(&page.common_prefixes[j]),
                self.base_prefix.clone(),
                self.repository_id.clone(),
            );
            common_prefixes.push(CommonPrefix { prefix: p });
            j = j + 1;
        }
        let mut listed_prefix = self.repository_id.clone();
        listed_prefix.push('/');
        listed_prefix.push_str(prefix);
        ListBucketResult {
            name: self.account_id.clone(),
            prefix: listed_prefix,
            key_count: match page.key_count {
                Some(k) => k,
                None => 0,
            },
            max_keys: match page.max_keys {
                Some(k) => k,
                None => 0,
            },
            is_truncated: match page.is_truncated {
                Some(t) => t,
                None => false,
            },
            contents,
            common_prefixes,
            next_continuation_token: clone_opt(&page.next_continuation_token),
        }
    }
}

impl AzureRepository {
    /// The blob prefix a listing of client prefix `prefix` asks for.
    pub fn list_prefix(&self, prefix: &str) -> (r: String)
        ensures
            r@ == backend_key_spec(strip_slashes(self.base_prefix@), prefix@),
    {
        self.blob_name(prefix)
    }

    /// The listing page a client sees for an Azure page (or for none, when the
    /// listing yielded no page): named after the account, the client prefix as
    /// given, truncated exactly when a next marker is given (which becomes the
    /// continuation token), blobs and prefixes in order with names rewritten
    /// from the base prefix (without trailing `/`) to the repository id.
    pub fn list_result(&self, prefix: &str, page: &Option<AzureListPage>) -> (r: ListBucketResult)
        ensures
            r.name@ == self.account_id@,
            r.prefix@ == prefix@,
            r.key_count == 0,
            page is None ==> r.max_keys == 0 && !r.is_truncated && r.next_continuation_token is None
                && r.contents@.len() == 0 && r.common_prefixes@.len() == 0,
            page matches Some(p) ==> azure_page_listed(r, *p, strip_slashes(self.base_prefix@), self.repository_id@),
    {
        let mut result = ListBucketResult {
            name: self.account_id.clone(),
            prefix: prefix.to_owned(),
            key_count: 0,
            max_keys: 0,
            is_truncated: false,
            contents: Vec::new(),
            common_prefixes: Vec::new(),
            next_continuation_token: None,
        };
        let p = match page {
            Some(p) => p,
            None => return result,
        };
        result.max_keys = match p.max_results {
            Some(m) => m as i64,
            None => 0,
        };
        match &p.next_marker {
            Some(m) => {
                result.is_truncated = true;
                result.next_continuation_token = Some(m.clone());
            },
            None => {},
        }
        let base = crate::backend::strip_trailing_slashes(self.base_prefix.as_str());
        let mut i: usize = 0;
        while i < p.items.len()
            invariant
                i <= p.items@.len(),
                base@ == strip_slashes(self.base_prefix@),
                result.name@ == self.account_id@,
                result.prefix@ == prefix@,
                result.key_count == 0,
                result.max_keys == option_or(p.max_results, 0) as i64,
                result.is_truncated == (p.next_marker is Some),
                result.next_continuation_token == p.next_marker,
                content_views(result.contents@) == blob_entries(p.items@.subrange(0, i as int), base@, self.repository_id@),
                prefix_texts(result.common_prefixes@) == prefix_keys(p.items@.subrange(0, i as int), base@, self.repository_id@),
            decreases p.items@.len() - i,
        {
            match &p.items[i] {
                AzureListedItem::Blob { name, last_modified, etag, size, blob_type } => {
                    let key = replace_first(name.clone(), base.clone(), self.repository_id.clone());
                    let size_i64: i64 = if *size <= 0x7fff_ffff_ffff_ffff {
                        *size as i64
                    } else {
                        0x7fff_ffff_ffff_ffff
                    };
                    let ghost before = result.contents@;
                    result.contents.push(
                        Content {
                            key,
                            last_modified: last_modified.clone(),
                            etag: etag.clone(),
                            size: size_i64,
                            storage_class: blob_type.clone(),
                        },
                    );
                    assert(content_views(result.contents@) =~= content_views(before).push(
                        (client_key(name@, base@, self.repository_id@), last_modified@, etag@, blob_size(*size), blob_type@),
                    ));
                },
                AzureListedItem::Prefix { name } => {
                    let pfx = replace_first(name.clone(), base.clone(), self.repository_id.clone());
                    let ghost before = result.common_prefixes@;
                    result.common_prefixes.push(CommonPrefix { prefix: pfx });
                    assert(prefix_texts(result.common_prefixes@) =~= prefix_texts(before).push(client_key(name@, base@, self.repository_id@)));
                },
            }
            proof {
                let now = p.items@.subrange(0, i + 1);
                assert(now.drop_last() =~= p.items@.subrange(0, i as int));
                assert(now.last() == p.items@[i as int]);
            }
            i = i + 1;
        }
        assert(p.items@.subrange(0, i as int) =~= p.items@);
        assert(azure_page_listed(result, *p, strip_slashes(self.base_prefix@), self.repository_id@));
        result
    }
}

} // verus!
