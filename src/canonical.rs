//! The canonical request of Signature V4: canonical query string, canonical
//! headers, signed-header list and payload hash.
use vstd::prelude::*;
use crate::digest::{hex_encode, hex_lower, sha256, sha256_of};
use crate::encoding::{canonical_path, canonical_path_spec, uri_encode, uri_encode_spec};
use crate::text::{lower_of, lowercase, str_eq, to_chars, trim, trim_spec};

verus! {

/// A name and a value.
pub type TextPair = (Seq<char>, Seq<char>);

/// The characters of each pair of strings.
pub open spec fn pair_views(v: Seq<(String, String)>) -> Seq<TextPair> {
    v.map_values(|p: (String, String)| (p.0@, p.1@))
}

/// The characters of each string.
pub open spec fn str_views(v: Seq<String>) -> Seq<Seq<char>> {
    v.map_values(|s: String| s@)
}

/// Lexicographic order by code point (the order of `String`'s `Ord`).
pub open spec fn seq_lt(a: Seq<char>, b: Seq<char>) -> bool
    decreases a.len(),
{
    if a.len() == 0 {
        b.len() > 0
    } else if b.len() == 0 {
        false
    } else if a[0] != b[0] {
        (a[0] as u32) < (b[0] as u32)
    } else {
        seq_lt(a.drop_first(), b.drop_first())
    }
}

/// `x` inserted into `s` after every leading pair whose name does not exceed its own.
pub open spec fn insert_sorted(x: TextPair, s: Seq<TextPair>) -> Seq<TextPair>
    decreases s.len(),
{
    if s.len() == 0 {
        seq![x]
    } else if seq_lt(x.0, s[0].0) {
        seq![x] + s
    } else {
        seq![s[0]] + insert_sorted(x, s.drop_first())
    }
}

/// Stable sort of pairs by name: pairs with equal names keep their order.
pub open spec fn sort_by_name(s: Seq<TextPair>) -> Seq<TextPair>
    decreases s.len(),
{
    if s.len() == 0 {
        seq![]
    } else {
        insert_sorted(s.last(), sort_by_name(s.drop_last()))
    }
}

/// Whether `a` comes strictly before `b`.
pub fn chars_lt(a: &Vec<char>, b: &Vec<char>) -> (r: bool)
    ensures
        r == seq_lt(a@, b@),
{
    let mut i: usize = 0;
    assert(a@.skip(0) =~= a@);
    assert(b@.skip(0) =~= b@);
    loop
        invariant
            i <= a@.len(),
            i <= b@.len(),
            seq_lt(a@, b@) == seq_lt(a@.skip(i as int), b@.skip(i as int)),
        decreases a@.len() - i,
    {
        if i == a.len() {
            return i < b.len();
        }
        if i == b.len() {
            return false;
        }
        if a[i] != b[i] {
            return (a[i] as u32) < (b[i] as u32);
        }
        assert(a@.skip(i as int).drop_first() =~= a@.skip(i + 1));
        assert(b@.skip(i as int).drop_first() =~= b@.skip(i + 1));
        i = i + 1;
    }
}

proof fn lemma_insert_at(x: TextPair, s: Seq<TextPair>, j: int)
    requires
        0 <= j <= s.len(),
        forall|k: int| 0 <= k < j ==> !seq_lt(x.0, #[trigger] s[k].0),
        j < s.len() ==> seq_lt(x.0, s[j].0),
    ensures
        insert_sorted(x, s) == s.subrange(0, j) + seq![x] + s.subrange(j, s.len() as int),
    decreases s.len(),
{
    if s.len() == 0 {
        assert(s.subrange(0, j) + seq![x] + s.subrange(j, s.len() as int) =~= seq![x]);
    } else if j == 0 {
        assert(s.subrange(0, j) + seq![x] + s.subrange(j, s.len() as int) =~= seq![x] + s);
    } else {
        let t = s.drop_first();
        assert forall|k: int| 0 <= k < j - 1 implies !seq_lt(x.0, #[trigger] t[k].0) by {
            assert(t[k] == s[k + 1]);
        }
        lemma_insert_at(x, t, j - 1);
        assert(s.subrange(0, j) + seq![x] + s.subrange(j, s.len() as int) =~= seq![s[0]] + (
        t.subrange(0, j - 1) + seq![x] + t.subrange(j - 1, t.len() as int)));
    }
}

/// `v` sorted by name, stably.
pub fn sort_pairs_by_name(v: &Vec<(String, String)>) -> (r: Vec<(String, String)>)
    ensures
        pair_views(r@) == sort_by_name(pair_views(v@)),
{
    let mut r: Vec<(String, String)> = Vec::new();
    let mut i: usize = 0;
    while i < v.len()
        invariant
            i <= v@.len(),
            pair_views(r@) == sort_by_name(pair_views(v@.subrange(0, i as int))),
        decreases v@.len() - i,
    {
        let name = v[i].0.clone();
        let value = v[i].1.clone();
        let key = to_chars(name.as_str());
        let mut j: usize = 0;
        while j < r.len() && !chars_lt(&key, &to_chars(r[j].0.as_str()))
            invariant
                j <= r@.len(),
                key@ == name@,
                forall|k: int| 0 <= k < j ==> !seq_lt(name@, #[trigger] r@[k].0@),
            decreases r@.len() - j,
        {
            j = j + 1;
        }
        let ghost old_r = pair_views(r@);
        let ghost x: TextPair = (name@, value@);
        proof {
            assert forall|k: int| 0 <= k < j implies !seq_lt(x.0, #[trigger] old_r[k].0) by {
                assert(old_r[k].0 == r@[k].0@);
            }
            lemma_insert_at(x, old_r, j as int);
        }
        r.insert(j, (name, value));
        proof {
            let pre = pair_views(v@.subrange(0, i as int));
            let now = pair_views(v@.subrange(0, i + 1));
            assert(now.drop_last() =~= pre);
            assert(now.last() == x);
            assert(pair_views(r@) =~= old_r.subrange(0, j as int) + seq![x] + old_r.subrange(
                j as int,
                old_r.len() as int,
            ));
        }
        i = i + 1;
    }
    assert(v@.subrange(0, v@.len() as int) =~= v@);
    r
}

/// The name/value pairs of a query string, decoded.
pub uninterp spec fn form_pairs(query: Seq<char>) -> Seq<TextPair>;

/// Relies on `url::form_urlencoded::parse`: splits at `&` and the first `=`,
/// decodes `+` and percent escapes; the pairs depend on the query alone.
#[verifier::external_body]
pub fn get_query_params(query: &str) -> (r: Vec<(String, String)>)
    ensures
        pair_views(r@) == form_pairs(query@),
{
    url::form_urlencoded::parse(query.as_bytes()).map(|(k, v)| (k.into_owned(), v.into_owned())).collect()
}

/// Both parts of each pair URI-encoded, `/` included.
pub open spec fn encode_pairs(s: Seq<TextPair>) -> Seq<TextPair> {
    s.map_values(|p: TextPair| (uri_encode_spec(p.0, true), uri_encode_spec(p.1, true)))
}

/// Pairs written `name=value`, joined by `&`.
pub open spec fn join_query(s: Seq<TextPair>) -> Seq<char>
    decreases s.len(),
{
    if s.len() == 0 {
        seq![]
    } else if s.len() == 1 {
        s[0].0 + seq!['='] + s[0].1
    } else {
        join_query(s.drop_last()) + seq!['&'] + s.last().0 + seq!['='] + s.last().1
    }
}

/// The canonical query string: the pairs of the query, URI-encoded, sorted by
/// encoded name, joined.
pub open spec fn canonical_query_spec(query: Seq<char>) -> Seq<char> {
    if query.len() == 0 {
        seq![]
    } else {
        join_query(sort_by_name(encode_pairs(form_pairs(query))))
    }
}

/// The canonical query string of a raw query (see [`canonical_query_spec`]).
pub fn get_canonical_query_string(query_string: &str) -> (r: String)
    ensures
        r@ == canonical_query_spec(query_string@),
{
    if query_string.is_empty() {
        return String::new();
    }
    let parsed = get_query_params(query_string);
    canonical_query_from_pairs(&parsed)
}

/// The canonical query string of decoded pairs: both parts URI-encoded, sorted
/// by encoded name (stably), written `name=value` and joined by `&`.
pub fn canonical_query_from_pairs(parsed: &Vec<(String, String)>) -> (r: String)
    ensures
        r@ == join_query(sort_by_name(encode_pairs(pair_views(parsed@)))),
{
    let mut encoded: Vec<(String, String)> = Vec::new();
    let mut i: usize = 0;
    while i < parsed.len()
        invariant
            i <= parsed@.len(),
            pair_views(encoded@) == encode_pairs(pair_views(parsed@)).subrange(0, i as int),
        decreases parsed@.len() - i,
    {
        let k = uri_encode(parsed[i].0.as_str(), true);
        let v = uri_encode(parsed[i].1.as_str(), true);
        proof {
            let pv = pair_views(parsed@);
            assert(pv[i as int] == (parsed@[i as int].0@, parsed@[i as int].1@));
            assert(encode_pairs(pv)[i as int] == (k@, v@));
        }
        let ghost prev = pair_views(encoded@);
        let ghost kv: TextPair = (k@, v@);
        encoded.push((k, v));
        assert(pair_views(encoded@) =~= prev.push(kv));
        i = i + 1;
    }
    assert(encode_pairs(pair_views(parsed@)).subrange(0, i as int) =~= encode_pairs(
        pair_views(parsed@),
    ));
    let sorted = sort_pairs_by_name(&encoded);
    let mut r = String::new();
    let mut j: usize = 0;
    while j < sorted.len()
        invariant
            j <= sorted@.len(),
            r@ == join_query(pair_views(sorted@).subrange(0, j as int)),
        decreases sorted@.len() - j,
    {
        if j > 0 {
            r.push('&');
        }
        r.push_str(sorted[j].0.as_str());
        r.push('=');
        r.push_str(sorted[j].1.as_str());
        proof {
            let now = pair_views(sorted@).subrange(0, j + 1);
            assert(now.drop_last() =~= pair_views(sorted@).subrange(0, j as int));
        }
        j = j + 1;
        assert(r@ =~= join_query(pair_views(sorted@).subrange(0, j as int)));
    }
    assert(pair_views(sorted@).subrange(0, j as int) =~= pair_views(sorted@));
    r
}

/// The first value of a header whose lower-cased name is `name`.
pub open spec fn header_lookup(h: Seq<TextPair>, name: Seq<char>) -> Option<Seq<char>>
    decreases h.len(),
{
    if h.len() == 0 {
        None
    } else if lower_of(h[0].0) == name {
        Some(h[0].1)
    } else {
        header_lookup(h.drop_first(), name)
    }
}

/// The first value of the header named `name` (given in lower case).
pub fn find_header(headers: &Vec<(String, String)>, name: &str) -> (r: Option<String>)
    ensures
        r matches Some(v) ==> header_lookup(pair_views(headers@), name@) == Some(v@),
        r is None ==> header_lookup(pair_views(headers@), name@) is None,
{
    let mut i: usize = 0;
    assert(pair_views(headers@).skip(0) =~= pair_views(headers@));
    while i < headers.len()
        invariant
            i <= headers@.len(),
            header_lookup(pair_views(headers@), name@) == header_lookup(
                pair_views(headers@).skip(i as int),
                name@,
            ),
        decreases headers@.len() - i,
    {
        let ghost rest = pair_views(headers@).skip(i as int);
        assert(rest[0] == (headers@[i as int].0@, headers@[i as int].1@));
        let lowered = lowercase(headers[i].0.as_str());
        if str_eq(lowered.as_str(), name) {
            return Some(headers[i].1.clone());
        }
        assert(rest.drop_first() =~= pair_views(headers@).skip(i + 1));
        i = i + 1;
    }
    assert(pair_views(headers@).skip(i as int) =~= Seq::<TextPair>::empty());
    None
}

/// The headers that are signed, as lower-cased name and trimmed value, in the
/// order in which they came.
pub open spec fn signed_entries(h: Seq<TextPair>, signed: Seq<Seq<char>>) -> Seq<TextPair>
    decreases h.len(),
{
    if h.len() == 0 {
        seq![]
    } else {
        let rest = signed_entries(h.drop_last(), signed);
        let n = lower_of(h.last().0);
        if signed.contains(n) {
            rest.push((n, trim_spec(h.last().1)))
        } else {
            rest
        }
    }
}

/// Lines `name:values`, where consecutive pairs of one name are merged into one
/// line with their values joined by `,`.
pub open spec fn header_block(s: Seq<TextPair>) -> Seq<char>
    decreases s.len(),
{
    if s.len() == 0 {
        seq![]
    } else if s.len() >= 2 && s[0].0 == s[1].0 {
        header_block(seq![(s[0].0, s[0].1 + seq![','] + s[1].1)] + s.subrange(2, s.len() as int))
    } else {
        s[0].0 + seq![':'] + s[0].1 + seq!['\n'] + header_block(s.drop_first())
    }
}

/// The canonical headers: the signed headers, sorted by name, one line per name.
pub open spec fn canonical_headers_spec(h: Seq<TextPair>, signed: Seq<Seq<char>>) -> Seq<char> {
    header_block(sort_by_name(signed_entries(h, signed)))
}

fn contains_str(v: &Vec<String>, s: &str) -> (r: bool)
    ensures
        r == str_views(v@).contains(s@),
{
    let mut i: usize = 0;
    while i < v.len()
        invariant
            i <= v@.len(),
            forall|k: int| 0 <= k < i ==> v@[k]@ != s@,
        decreases v@.len() - i,
    {
        if str_eq(v[i].as_str(), s) {
            assert(str_views(v@)[i as int] == s@);
            return true;
        }
        i = i + 1;
    }
    proof {
        if str_views(v@).contains(s@) {
            let k = choose|k: int| 0 <= k < str_views(v@).len() && str_views(v@)[k] == s@;
            assert(v@[k]@ == s@);
        }
    }
    false
}

fn render_line(out: &mut String, name: &String, value: &String)
    ensures
        final(out)@ == old(out)@ + name@ + seq![':'] + value@ + seq!['\n'],
{
    out.push_str(name.as_str());
    out.push(':');
    out.push_str(value.as_str());
    out.push('\n');
}

/// The canonical headers of a request (see [`canonical_headers_spec`]).
pub fn get_canonical_headers(headers: &Vec<(String, String)>, signed_headers: &Vec<String>) -> (r:
    String)
    ensures
        r@ == canonical_headers_spec(pair_views(headers@), str_views(signed_headers@)),
{
    let ghost hv = pair_views(headers@);
    let ghost sv = str_views(signed_headers@);
    let mut entries: Vec<(String, String)> = Vec::new();
    let mut i: usize = 0;
    while i < headers.len()
        invariant
            i <= headers@.len(),
            hv == pair_views(headers@),
            sv == str_views(signed_headers@),
            pair_views(entries@) == signed_entries(hv.subrange(0, i as int), sv),
        decreases headers@.len() - i,
    {
        let name = lowercase(headers[i].0.as_str());
        proof {
            let now = hv.subrange(0, i + 1);
            assert(now.drop_last() =~= hv.subrange(0, i as int));
            assert(now.last() == (headers@[i as int].0@, headers@[i as int].1@));
        }
        if contains_str(signed_headers, name.as_str()) {
            let value = trim(headers[i].1.as_str());
            let ghost prev = pair_views(entries@);
            let ghost e: TextPair = (name@, value@);
            entries.push((name, value));
            assert(pair_views(entries@) =~= prev.push(e));
        }
        i = i + 1;
    }
    assert(hv.subrange(0, i as int) =~= hv);
    canonical_header_block(&entries)
}

/// The canonical header lines of signed entries (lower-cased names, trimmed
/// values, in the order received): sorted by name, stably, one line per name
/// with the values joined by `,`.
pub fn canonical_header_block(entries: &Vec<(String, String)>) -> (r: String)
    ensures
        r@ == header_block(sort_by_name(pair_views(entries@))),
{
    let sorted = sort_pairs_by_name(entries);
    let ghost st = pair_views(sorted@);
    let mut out = String::new();
    if sorted.len() == 0 {
        return out;
    }
    let mut cur_name = sorted[0].0.clone();
    let mut cur_value = sorted[0].1.clone();
    assert(st =~= seq![(cur_name@, cur_value@)] + st.subrange(1, st.len() as int));
    let mut j: usize = 1;
    while j < sorted.len()
        invariant
            1 <= j <= sorted@.len(),
            st == pair_views(sorted@),
            out@ + header_block(seq![(cur_name@, cur_value@)] + st.subrange(j as int, st.len() as int))
                == header_block(st),
        decreases sorted@.len() - j,
    {
        let ghost t = seq![(cur_name@, cur_value@)] + st.subrange(j as int, st.len() as int);
        assert(st[j as int] == (sorted@[j as int].0@, sorted@[j as int].1@));
        if str_eq(sorted[j].0.as_str(), cur_name.as_str()) {
            let ghost old_value = cur_value@;
            cur_value.push(',');
            cur_value.push_str(sorted[j].1.as_str());
            assert(t[0] == (cur_name@, old_value));
            assert(t[1] == st[j as int]);
            assert(cur_value@ =~= old_value + seq![','] + t[1].1);
            assert(t.subrange(2, t.len() as int) =~= st.subrange(j + 1, st.len() as int));
            assert(seq![(cur_name@, cur_value@)] + st.subrange(j + 1, st.len() as int) =~= seq![
                (t[0].0, t[0].1 + seq![','] + t[1].1),
            ] + t.subrange(2, t.len() as int));
        } else {
            render_line(&mut out, &cur_name, &cur_value);
            cur_name = sorted[j].0.clone();
            cur_value = sorted[j].1.clone();
            assert(t.drop_first() =~= seq![(cur_name@, cur_value@)] + st.subrange(
                j + 1,
                st.len() as int,
            ));
        }
        j = j + 1;
    }
    let ghost last = seq![(cur_name@, cur_value@)] + st.subrange(j as int, st.len() as int);
    assert(last.drop_first() =~= Seq::<TextPair>::empty());
    assert(header_block(last) == cur_name@ + seq![':'] + cur_value@ + seq!['\n']
        + header_block(Seq::<TextPair>::empty()));
    render_line(&mut out, &cur_name, &cur_value);
    assert(out@ =~= header_block(st));
    out
}

/// Names lower-cased and joined by `;`.
pub open spec fn join_lower(s: Seq<Seq<char>>) -> Seq<char>
    decreases s.len(),
{
    if s.len() == 0 {
        seq![]
    } else if s.len() == 1 {
        lower_of(s[0])
    } else {
        join_lower(s.drop_last()) + seq![';'] + lower_of(s.last())
    }
}

/// The signed-header list: the names lower-cased, joined by `;`.
pub fn get_signed_headers(signed_headers: &Vec<String>) -> (r: String)
    ensures
        r@ == join_lower(str_views(signed_headers@)),
{
    let ghost sv = str_views(signed_headers@);
    let mut r = String::new();
    let mut i: usize = 0;
    while i < signed_headers.len()
        invariant
            i <= signed_headers@.len(),
            sv == str_views(signed_headers@),
            r@ == join_lower(sv.subrange(0, i as int)),
        decreases signed_headers@.len() - i,
    {
        if i > 0 {
            r.push(';');
        }
        let l = lowercase(signed_headers[i].as_str());
        r.push_str(l.as_str());
        proof {
            let now = sv.subrange(0, i + 1);
            assert(now.drop_last() =~= sv.subrange(0, i as int));
            assert(now.last() == signed_headers@[i as int]@);
        }
        i = i + 1;
        assert(r@ =~= join_lower(sv.subrange(0, i as int)));
    }
    assert(sv.subrange(0, i as int) =~= sv);
    r
}

/// Lower-case hexadecimal SHA-256 of the body.
pub fn hash_payload(body: &[u8]) -> (r: String)
    ensures
        r@ == hex_lower(sha256_of(body@)),
{
    let d = sha256(body);
    hex_encode(d.as_slice())
}

/// The payload line: `UNSIGNED-PAYLOAD` when the client declares it, else the
/// hash of the body.
pub open spec fn payload_hash_spec(body: Seq<u8>, content_hash: Seq<char>) -> Seq<char> {
    if content_hash == "UNSIGNED-PAYLOAD"@ {
        content_hash
    } else {
        hex_lower(sha256_of(body))
    }
}

/// The six lines of the canonical request; `None` when the path does not
/// decode to UTF-8.
pub open spec fn canonical_request_spec(
    method: Seq<char>,
    path: Seq<char>,
    headers: Seq<TextPair>,
    signed: Seq<Seq<char>>,
    query: Seq<char>,
    body: Seq<u8>,
    content_hash: Seq<char>,
) -> Option<Seq<char>> {
    match canonical_path_spec(path) {
        Some(p) => Some(
            method + seq!['\n'] + p + seq!['\n'] + canonical_query_spec(query) + seq!['\n']
                + canonical_headers_spec(headers, signed) + seq!['\n'] + join_lower(signed)
                + seq!['\n'] + payload_hash_spec(body, content_hash),
        ),
        None => None,
    }
}

/// The canonical request (see [`canonical_request_spec`]).
pub fn create_canonical_request(
    method: &str,
    path: &str,
    headers: &Vec<(String, String)>,
    signed_headers: &Vec<String>,
    query_string: &str,
    body: &[u8],
    content_hash: &str,
) -> (r: Option<String>)
    ensures
        r matches Some(c) ==> canonical_request_spec(
            method@,
            path@,
            pair_views(headers@),
            str_views(signed_headers@),
            query_string@,
            body@,
            content_hash@,
        ) == Some(c@),
        r is None ==> canonical_request_spec(
            method@,
            path@,
            pair_views(headers@),
            str_views(signed_headers@),
            query_string@,
            body@,
            content_hash@,
        ) is None,
{
    let p = match canonical_path(path) {
        Some(p) => p,
        None => return None,
    };
    let mut r = method.to_owned();
    r.push('\n');
    r.push_str(p.as_str());
    r.push('\n');
    let q = get_canonical_query_string(query_string);
    r.push_str(q.as_str());
    r.push('\n');
    let h = get_canonical_headers(headers, signed_headers);
    r.push_str(h.as_str());
    r.push('\n');
    let sh = get_signed_headers(signed_headers);
    r.push_str(sh.as_str());
    r.push('\n');
    if str_eq(content_hash, "UNSIGNED-PAYLOAD") {
        r.push_str(content_hash);
    } else {
        let ph = hash_payload(body);
        r.push_str(ph.as_str());
    }
    Some(r)
}

} // verus!
