//! The per-request context: account, repository and key named by a request.
use vstd::prelude::*;
use crate::backend::Backend;
use crate::canonical::{pair_views, str_views, TextPair};
use crate::model::APIKey;
use crate::sigv4::{split_spec, split_text};
use crate::text::{starts_with, starts_with_exec, str_eq};

verus! {

/// Pieces joined by `/`.
pub open spec fn join_with_slash(s: Seq<Seq<char>>) -> Seq<char>
    decreases s.len(),
{
    if s.len() == 0 {
        seq![]
    } else if s.len() == 1 {
        s[0]
    } else {
        join_with_slash(s.drop_last()) + seq!['/'] + s.last()
    }
}

/// The value of query parameter `name`; when it is given more than once, the
/// last one counts.
pub open spec fn param_lookup(pairs: Seq<TextPair>, name: Seq<char>) -> Option<Seq<char>>
    decreases pairs.len(),
{
    if pairs.len() == 0 {
        None
    } else if pairs.last().0 == name {
        Some(pairs.last().1)
    } else {
        param_lookup(pairs.drop_last(), name)
    }
}

/// The characters of an optional string.
pub open spec fn opt_view(o: Option<String>) -> Option<Seq<char>> {
    match o {
        Some(s) => Some(s@),
        None => None,
    }
}

/// The key of the path pieces: the pieces after account and repository.
pub open spec fn path_key(pieces: Seq<Seq<char>>) -> Seq<char> {
    if pieces.len() > 3 {
        join_with_slash(pieces.subrange(3, pieces.len() as int))
    } else {
        seq![]
    }
}

/// Account, repository and key of a request: the first three `/`-separated
/// segments of the path after the leading one, the key being all the rest;
/// a `prefix` parameter names repository and key instead (its part before the
/// first `/`, and the rest). An empty key is no key.
pub open spec fn request_parts_spec(path: Seq<char>, params: Seq<TextPair>) -> (
    Option<Seq<char>>,
    Option<Seq<char>>,
    Option<Seq<char>>,
) {
    let pieces = split_spec(path, seq!['/']);
    let account = if pieces.len() > 1 { Some(pieces[1]) } else { None };
    let (repository, key) = match param_lookup(params, "prefix"@) {
        Some(p) => {
            let sp = split_spec(p, seq!['/']);
            (Some(sp[0]), join_with_slash(sp.subrange(1, sp.len() as int)))
        },
        None => (if pieces.len() > 2 { Some(pieces[2]) } else { None }, path_key(pieces)),
    };
    (account, repository, if key.len() == 0 { None } else { Some(key) })
}

fn find_param(params: &Vec<(String, String)>, name: &str) -> (r: Option<String>)
    ensures
        opt_view(r) == param_lookup(pair_views(params@), name@),
{
    let mut i: usize = params.len();
    assert(pair_views(params@).subrange(0, i as int) =~= pair_views(params@));
    while i > 0
        invariant
            i <= params@.len(),
            param_lookup(pair_views(params@), name@) == param_lookup(
                pair_views(params@).subrange(0, i as int),
                name@,
            ),
        decreases i,
    {
        let ghost pv = pair_views(params@).subrange(0, i as int);
        assert(pv.last() == (params@[i - 1].0@, params@[i - 1].1@));
        assert(pv.drop_last() =~= pair_views(params@).subrange(0, i - 1));
        if str_eq(params[i - 1].0.as_str(), name) {
            return Some(params[i - 1].1.clone());
        }
        i = i - 1;
    }
    assert(pair_views(params@).subrange(0, 0) =~= Seq::<TextPair>::empty());
    None
}

fn join_pieces(v: &Vec<String>, from: usize) -> (r: String)
    requires
        from <= v@.len(),
    ensures
        r@ == join_with_slash(str_views(v@).subrange(from as int, v@.len() as int)),
{
    let ghost sv = str_views(v@);
    let mut r = String::new();
    let mut i: usize = from;
    while i < v.len()
        invariant
            from <= i <= v@.len(),
            sv == str_views(v@),
            r@ == join_with_slash(sv.subrange(from as int, i as int)),
        decreases v@.len() - i,
    {
        if i > from {
            r.push('/');
        }
        r.push_str(v[i].as_str());
        proof {
            let now = sv.subrange(from as int, i + 1);
            assert(now.drop_last() =~= sv.subrange(from as int, i as int));
            assert(now.last() == v@[i as int]@);
        }
        i = i + 1;
        assert(r@ =~= join_with_slash(sv.subrange(from as int, i as int)));
    }
    r
}

/// Account, repository and key of a request (see [`request_parts_spec`]).
pub fn extract_request_parts(path: &str, params: &Vec<(String, String)>) -> (r: (
    Option<String>,
    Option<String>,
    Option<String>,
))
    ensures
        (opt_view(r.0), opt_view(r.1), opt_view(r.2)) == request_parts_spec(path@, pair_views(params@)),
{
    proof {
        reveal_strlit("/");
        assert("/"@ =~= seq!['/']);
    }
    let pieces = split_text(path, "/");
    let ghost pv = str_views(pieces@);
    let account = if pieces.len() > 1 {
        assert(pv[1] == pieces@[1]@);
        Some(pieces[1].clone())
    } else {
        None
    };
    let (repository, key) = match find_param(params, "prefix") {
        Some(p) => {
            proof {
                crate::sigv4::lemma_split_nonempty(p@, seq!['/']);
            }
            let sp = split_text(p.as_str(), "/");
            assert(str_views(sp@)[0] == sp@[0]@);
            (Some(sp[0].clone()), join_pieces(&sp, 1))
        },
        None => {
            let repository = if pieces.len() > 2 {
                assert(pv[2] == pieces@[2]@);
                Some(pieces[2].clone())
            } else {
                None
            };
            let key = if pieces.len() > 3 {
                join_pieces(&pieces, 3)
            } else {
                String::new()
            };
            (repository, key)
        },
    };
    let key = if key.as_str().is_empty() {
        None
    } else {
        Some(key)
    };
    (account, repository, key)
}

/// Keys under `.source/` name objects that the control plane provides.
pub open spec fn is_virtual_key(key: Option<Seq<char>>) -> bool {
    key matches Some(k) && starts_with(k, ".source/"@)
}

/// Whether a key names a virtual object.
pub fn is_virtual_object(key: &Option<String>) -> (r: bool)
    ensures
        r == is_virtual_key(opt_view(*key)),
{
    match key {
        Some(k) => starts_with_exec(k.as_str(), ".source/"),
        None => false,
    }
}

/// What a request carries through the handlers.
pub struct RequestContext {
    pub account_id: Option<String>,
    pub repository_id: Option<String>,
    pub key: Option<String>,
    pub identity: Option<APIKey>,
    pub is_virtual_object: bool,
    pub client: Option<Backend>,
    pub body: Vec<u8>,
}

impl RequestContext {
    /// The context of a request: its parts as [`extract_request_parts`] reads
    /// them, its identity and body, and no backend yet.
    pub fn new(
        path: &str,
        params: &Vec<(String, String)>,
        identity: Option<APIKey>,
        body: Vec<u8>,
    ) -> (r: RequestContext)
        ensures
            (opt_view(r.account_id), opt_view(r.repository_id), opt_view(r.key)) == request_parts_spec(
                path@,
                pair_views(params@),
            ),
            r.is_virtual_object == is_virtual_key(opt_view(r.key)),
            r.identity == identity,
            r.client is None,
            r.body == body,
    {
        let (account_id, repository_id, key) = extract_request_parts(path, params);
        let is_virtual = is_virtual_object(&key);
        RequestContext {
            account_id,
            repository_id,
            key,
            identity,
            is_virtual_object: is_virtual,
            client: None,
            body,
        }
    }
}

} // verus!
