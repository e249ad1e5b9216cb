//! Generic repository records: at-URIs and the XRPC addresses that read them.
use vstd::prelude::*;
use vstd::string::StringExecFns;

use crate::text::{lemma_split_append_plain, lemma_split_push_sep, split, split_on, views};

verus! {

/// The reply to a `putRecord` call.
pub struct PutResp {
    pub uri: String,
    pub cid: String,
}

/// The `(did, collection, rkey)` of an at-URI `at://<did>/<collection>/<rkey>`:
/// the third, fourth and fifth pieces between slashes, or three empty strings
/// where there are fewer than five pieces.
pub open spec fn uri_parts_of(uri: Seq<char>) -> (Seq<char>, Seq<char>, Seq<char>) {
    let p = split(uri, '/');
    if p.len() < 5 {
        (Seq::<char>::empty(), Seq::<char>::empty(), Seq::<char>::empty())
    } else {
        (p[2], p[3], p[4])
    }
}

/// The at-URI of a record: `at://<did>/<collection>/<rkey>`.
pub open spec fn at_uri(did: Seq<char>, col: Seq<char>, rkey: Seq<char>) -> Seq<char> {
    seq!['a', 't', ':', '/', '/'] + did + seq!['/'] + col + seq!['/'] + rkey
}

/// split at: URI, return (did, collection, rkey)
pub fn uri_parts(uri: &str) -> (r: (String, String, String))
    ensures
        (r.0@, r.1@, r.2@) == uri_parts_of(uri@),
{
    let lst = split_on(uri, '/');
    proof {
        assert(views(lst@).len() == lst@.len());
    }
    if lst.len() < 5 {
        return (String::new(), String::new(), String::new());
    }
    proof {
        assert(views(lst@)[2] == lst@[2]@);
        assert(views(lst@)[3] == lst@[3]@);
        assert(views(lst@)[4] == lst@[4]@);
    }
    (lst[2].clone(), lst[3].clone(), lst[4].clone())
}

/// An at-URI built from a did, a collection and a record key, none of which
/// holds a slash, splits back into exactly those three parts.
pub proof fn law_uri_parts_of_at_uri(did: Seq<char>, col: Seq<char>, rkey: Seq<char>)
    requires
        !did.contains('/'),
        !col.contains('/'),
        !rkey.contains('/'),
    ensures
        uri_parts_of(at_uri(did, col, rkey)) == (did, col, rkey),
{
    let e = Seq::<char>::empty();
    let scheme = seq!['a', 't', ':'];
    assert(!scheme.contains('/')) by {
        if scheme.contains('/') {
            let k = choose|k: int| 0 <= k < scheme.len() && scheme[k] == '/';
            assert(scheme[k] != '/');
        }
    }
    assert(split(e, '/') == seq![e]);
    lemma_split_append_plain(e, scheme, '/');
    assert(e + scheme =~= scheme);
    assert(split(scheme, '/') =~= seq![scheme]);
    let s1 = scheme.push('/');
    lemma_split_push_sep(scheme, '/');
    let s2 = s1.push('/');
    lemma_split_push_sep(s1, '/');
    assert(split(s2, '/') =~= seq![scheme, e, e]);
    assert(s2 =~= seq!['a', 't', ':', '/', '/']);
    lemma_split_append_plain(s2, did, '/');
    let s3 = s2 + did;
    assert(split(s3, '/') =~= seq![scheme, e, did]) by {
        assert(e + did =~= did);
    }
    lemma_split_push_sep(s3, '/');
    let s4 = s3.push('/');
    lemma_split_append_plain(s4, col, '/');
    let s5 = s4 + col;
    assert(split(s5, '/') =~= seq![scheme, e, did, col]) by {
        assert(e + col =~= col);
    }
    lemma_split_push_sep(s5, '/');
    let s6 = s5.push('/');
    lemma_split_append_plain(s6, rkey, '/');
    let s7 = s6 + rkey;
    assert(split(s7, '/') =~= seq![scheme, e, did, col, rkey]) by {
        assert(e + rkey =~= rkey);
    }
    assert(s7 =~= at_uri(did, col, rkey));
}

/// The address of `com.atproto.repo.getRecord` for one record.
pub open spec fn get_record_url_of(
    col: Seq<char>,
    rkey: Seq<char>,
    serv: Seq<char>,
    did: Seq<char>,
) -> Seq<char> {
    serv + "/xrpc/com.atproto.repo.getRecord?repo="@ + did + "&collection="@ + col + "&rkey="@
        + rkey
}

/// The address of `com.atproto.repo.listRecords` for a collection, with the
/// cursor where one is given.
pub open spec fn list_record_url_of(
    col: Seq<char>,
    serv: Seq<char>,
    did: Seq<char>,
    cursor: Option<Seq<char>>,
) -> Seq<char> {
    match cursor {
        Some(cur) => serv + "/xrpc/com.atproto.repo.listRecords?repo="@ + did + "&collection="@
            + col + "&cursor="@ + cur,
        None => serv + "/xrpc/com.atproto.repo.listRecords?repo="@ + did + "&collection="@ + col,
    }
}

/// The address that `get_record` fetches.
pub fn get_record_url(col: &str, rkey: &str, serv: &str, did: &str) -> (r: String)
    ensures
        r@ == get_record_url_of(col@, rkey@, serv@, did@),
{
    let mut r = String::from_str(serv);
    r.append("/xrpc/com.atproto.repo.getRecord?repo=");
    r.append(did);
    r.append("&collection=");
    r.append(col);
    r.append("&rkey=");
    r.append(rkey);
    r
}

/// The address that `list_record` fetches.
pub fn list_record_url(col: &str, serv: &str, did: &str, cursor: &Option<String>) -> (r: String)
    ensures
        r@ == list_record_url_of(
            col@,
            serv@,
            did@,
            match cursor {
                Some(c) => Some(c@),
                None => None,
            },
        ),
{
    let mut r = String::from_str(serv);
    r.append("/xrpc/com.atproto.repo.listRecords?repo=");
    r.append(did);
    r.append("&collection=");
    r.append(col);
    match cursor {
        Some(cur) => {
            r.append("&cursor=");
            r.append(cur.as_str());
        },
        None => {},
    }
    r
}


/// Where a record of another repository is read: at the service already
/// known for the page's own did, or at the service its did document names.
pub enum ServiceAt {
    /// read it at this service
    Known(String),
    /// look up the did document of this did first
    Resolve(String),
}

/// The service at which a record of `target` is read while gathering the
/// records of `did`, whose service is `serv`.
pub open spec fn service_fits(r: ServiceAt, did: Seq<char>, serv: Seq<char>, target: Seq<char>) -> bool {
    match r {
        ServiceAt::Known(s) => did == target && s@ == serv,
        ServiceAt::Resolve(d) => did != target && d@ == target,
    }
}

/// The service for a record of `target`: the known one where `target` is the
/// page's own did, else a lookup of `target`.
pub fn service_for(did: &str, serv: &str, target: &str) -> (r: ServiceAt)
    ensures
        service_fits(r, did@, serv@, target@),
{
    if crate::text::str_eq(did, target) {
        ServiceAt::Known(String::from_str(serv))
    } else {
        ServiceAt::Resolve(String::from_str(target))
    }
}

/// A record of another repository to read with `get_record`.
pub struct RecordTarget {
    pub collection: String,
    pub rkey: String,
    pub repo: String,
    pub service: ServiceAt,
}


/// `t` reads the record named by the at-URI `uri` in `collection`, at the
/// service `service_for` chooses for its did.
pub open spec fn target_fits(
    t: RecordTarget,
    did: Seq<char>,
    serv: Seq<char>,
    uri: Seq<char>,
    collection: Seq<char>,
) -> bool {
    let (t_did, _col, t_rkey) = uri_parts_of(uri);
    &&& t.collection@ == collection
    &&& t.rkey@ == t_rkey
    &&& t.repo@ == t_did
    &&& service_fits(t.service, did, serv, t_did)
}

/// The record of `collection` that the at-URI `uri` names, read while
/// gathering the records of `did` at `serv`.
pub fn target_of(did: &str, serv: &str, uri: &str, collection: &str) -> (r: RecordTarget)
    ensures
        target_fits(r, did@, serv@, uri@, collection@),
{
    let (t_did, _col, t_rkey) = uri_parts(uri);
    let service = service_for(did, serv, t_did.as_str());
    RecordTarget { collection: String::from_str(collection), rkey: t_rkey, repo: t_did, service }
}


/// None of the three parts of an at-URI holds a slash.
pub proof fn law_uri_parts_have_no_slash(uri: Seq<char>)
    ensures
        !uri_parts_of(uri).0.contains('/'),
        !uri_parts_of(uri).1.contains('/'),
        !uri_parts_of(uri).2.contains('/'),
{
    crate::text::lemma_split_pieces_plain(uri, '/');
    let e = Seq::<char>::empty();
    assert(!e.contains('/'));
}

/// The items of `v` in the opposite order.
pub(crate) fn reversed<T>(v: Vec<T>) -> (r: Vec<T>)
    ensures
        r@.len() == v@.len(),
        forall|k: int| 0 <= k < v@.len() ==> #[trigger] r@[k] == v@[v@.len() - 1 - k],
{
    let ghost orig = v@;
    let mut v = v;
    let mut r: Vec<T> = Vec::new();
    while v.len() > 0
        invariant
            v@ == orig.subrange(0, v@.len() as int),
            r@.len() + v@.len() == orig.len(),
            forall|k: int| 0 <= k < r@.len() ==> #[trigger] r@[k] == orig[orig.len() - 1 - k],
        decreases v@.len(),
    {
        let x = v.pop().unwrap();
        r.push(x);
    }
    r
}

} // verus!
