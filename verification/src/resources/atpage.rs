//! The page record (`one.atpage.page`) and the feed of service records shown
//! under it.
use itertools::Itertools;
use vstd::prelude::*;
use vstd::string::StringExecFns;

use crate::resources::auth::AuthData;
use crate::text::{views, str_eq};

verus! {

/// for record links
pub struct AtPageResp {
    pub uri: String,
    pub cid: String,
    pub value: AtPageValue,
}

/// for record links
pub struct AtPageValue {
    pub kind: String,
    pub links: Vec<LinkEntry>,
    pub services: Vec<String>,
    pub title: Option<String>,
    pub description: Option<String>,
    pub style: Option<String>,
    pub script: Option<String>,
}

/// for record link entry
#[allow(non_snake_case)]
pub struct LinkEntry {
    pub url: String,
    pub name: String,
    pub order: i32,
    pub createdAt: i64,
    pub description: Option<String>,
    pub icon: Option<String>,
    pub style: Option<String>,
}

/// One entry of a service, as the page shows it.
#[derive(Clone, Debug)]
pub struct AtRecord {
    pub kind: String,
    pub title: String,
    pub link: String,
    pub content: String,
    pub images: Vec<String>,
    /// seconds since the Unix epoch
    pub timestamp: i64,
}

/// The records of a page, newest first.
#[derive(Clone, Debug)]
pub struct RecordsRes {
    pub records: Vec<AtRecord>,
    pub cursor: Option<String>,
}

/// The collection and record key under which a page is kept.
pub const PAGE_COLLECTION: &'static str = "one.atpage.page";

/// The record key of the page.
pub const PAGE_RKEY: &'static str = "self";

/// The record of a page as `putRecord` writes it: absent texts become empty.
pub struct PageRecordBody {
    pub kind: String,
    pub links: Vec<LinkEntry>,
    pub services: Vec<String>,
    pub title: String,
    pub description: String,
    pub style: String,
    pub script: String,
}

/// The body of a `com.atproto.repo.putRecord` call for the page.
pub struct PutRecordBody {
    pub repo: String,
    pub collection: String,
    pub rkey: String,
    pub record: PageRecordBody,
    pub validate: bool,
}

/// Everything the page's `putRecord` call sends: where, with which
/// credentials, and what.
pub struct PutRecordRequest {
    pub url: String,
    pub authorization: String,
    pub body: PutRecordBody,
}

/// The text of an optional field, or the empty text where it is absent.
pub open spec fn text_or_empty(o: Option<String>) -> Seq<char> {
    match o {
        Some(s) => s@,
        None => Seq::<char>::empty(),
    }
}

/// `o.unwrap_or_default()` for an optional text.
pub fn unwrap_text(o: Option<String>) -> (r: String)
    ensures
        r@ == text_or_empty(o),
{
    match o {
        Some(s) => s,
        None => String::new(),
    }
}

/// The request that stores `data` as the page of the signed-in user.
pub fn put_record_request(usr: &AuthData, data: AtPageValue) -> (r: PutRecordRequest)
    ensures
        r.url@ == usr.service@ + "/xrpc/com.atproto.repo.putRecord"@,
        r.authorization@ == "Bearer "@ + usr.access@,
        r.body.repo@ == usr.did@,
        r.body.collection@ == PAGE_COLLECTION@,
        r.body.rkey@ == PAGE_RKEY@,
        !r.body.validate,
        r.body.record.kind@ == PAGE_COLLECTION@,
        r.body.record.links == data.links,
        r.body.record.services == data.services,
        r.body.record.title@ == text_or_empty(data.title),
        r.body.record.description@ == text_or_empty(data.description),
        r.body.record.style@ == text_or_empty(data.style),
        r.body.record.script@ == text_or_empty(data.script),
{
    let mut url = usr.service.clone();
    url.append("/xrpc/com.atproto.repo.putRecord");
    let mut authorization = String::from_str("Bearer ");
    authorization.append(usr.access.as_str());
    let record = PageRecordBody {
        kind: String::from_str(PAGE_COLLECTION),
        links: data.links,
        services: data.services,
        title: unwrap_text(data.title),
        description: unwrap_text(data.description),
        style: unwrap_text(data.style),
        script: unwrap_text(data.script),
    };
    PutRecordRequest {
        url,
        authorization,
        body: PutRecordBody {
            repo: usr.did.clone(),
            collection: String::from_str(PAGE_COLLECTION),
            rkey: String::from_str(PAGE_RKEY),
            record,
            validate: false,
        },
    }
}

// ===========  Service Record ===========
/// The services whose records a page can gather.
#[derive(PartialEq, Eq, Structural, Clone, Copy, Debug)]
pub enum RecordSource {
    Frontpage,
    Whitewind,
    Pinksea,
    Ruthub,
    Smokesignal,
    Grain,
    Recipe,
    Leaflet,
}

/// The source that a page's service name selects for its feed; the feed
/// knows five of them.
pub open spec fn feed_source(name: Seq<char>) -> Option<RecordSource> {
    if name == "frontpage"@ {
        Some(RecordSource::Frontpage)
    } else if name == "whitewind"@ {
        Some(RecordSource::Whitewind)
    } else if name == "pinksea"@ {
        Some(RecordSource::Pinksea)
    } else if name == "ruthub"@ {
        Some(RecordSource::Ruthub)
    } else if name == "smokesignal"@ {
        Some(RecordSource::Smokesignal)
    } else {
        None
    }
}

/// The sources fetched for a page's services, in the order of the services,
/// skipping names the feed does not know.
pub open spec fn feed_plan(services: Seq<Seq<char>>) -> Seq<RecordSource>
    decreases services.len(),
{
    if services.len() == 0 {
        Seq::<RecordSource>::empty()
    } else {
        let rest = feed_plan(services.drop_last());
        match feed_source(services.last()) {
            Some(s) => rest.push(s),
            None => rest,
        }
    }
}

/// The source a service name selects for the feed.
pub fn source_for(name: &str) -> (r: Option<RecordSource>)
    ensures
        r == feed_source(name@),
{
    if str_eq(name, "frontpage") {
        Some(RecordSource::Frontpage)
    } else if str_eq(name, "whitewind") {
        Some(RecordSource::Whitewind)
    } else if str_eq(name, "pinksea") {
        Some(RecordSource::Pinksea)
    } else if str_eq(name, "ruthub") {
        Some(RecordSource::Ruthub)
    } else if str_eq(name, "smokesignal") {
        Some(RecordSource::Smokesignal)
    } else {
        None
    }
}

/// The sources to fetch, one after another, for a page's services.
pub fn feed_sources(services: &Vec<String>) -> (r: Vec<RecordSource>)
    ensures
        r@ == feed_plan(views(services@)),
{
    let mut r: Vec<RecordSource> = Vec::new();
    let mut i: usize = 0;
    while i < services.len()
        invariant
            i <= services.len(),
            r@ == feed_plan(views(services@).take(i as int)),
        decreases services.len() - i,
    {
        assert(views(services@).take(i + 1).drop_last() =~= views(services@).take(i as int));
        assert(views(services@).take(i + 1).last() == services@[i as int]@);
        match source_for(services[i].as_str()) {
            Some(s) => r.push(s),
            None => {},
        }
        i = i + 1;
    }
    assert(views(services@).take(services.len() as int) =~= views(services@));
    r
}

/// The records of several batches, one batch after another.
pub open spec fn all_of(batches: Seq<Seq<AtRecord>>) -> Seq<AtRecord>
    decreases batches.len(),
{
    if batches.len() == 0 {
        Seq::<AtRecord>::empty()
    } else {
        all_of(batches.drop_last()) + batches.last()
    }
}

/// No record comes before a newer one.
pub open spec fn newest_first(s: Seq<AtRecord>) -> bool {
    forall|i: int, j: int| 0 <= i < j < s.len() ==> s[i].timestamp >= s[j].timestamp
}

/// The records of `s` with the time `t`, in their order in `s`.
pub open spec fn stamped_at(s: Seq<AtRecord>, t: i64) -> Seq<AtRecord> {
    s.filter(|r: AtRecord| r.timestamp == t)
}

/// `out` is `s` sorted newest first, records of the same time keeping their
/// order: for every time, the records with that time are the same and in the
/// same order in both.
pub open spec fn sorted_newest_first(s: Seq<AtRecord>, out: Seq<AtRecord>) -> bool {
    &&& newest_first(out)
    &&& forall|t: i64| #[trigger] stamped_at(out, t) == stamped_at(s, t)
}

/// The order in which the feed shows two records: the newer first.
pub fn newer_first(a: &AtRecord, b: &AtRecord) -> (r: std::cmp::Ordering)
    ensures
        r == std::cmp::Ordering::Less <==> a.timestamp > b.timestamp,
        r == std::cmp::Ordering::Equal <==> a.timestamp == b.timestamp,
        r == std::cmp::Ordering::Greater <==> a.timestamp < b.timestamp,
{
    if a.timestamp > b.timestamp {
        std::cmp::Ordering::Less
    } else if a.timestamp == b.timestamp {
        std::cmp::Ordering::Equal
    } else {
        std::cmp::Ordering::Greater
    }
}

/// itertools: `Itertools::sorted_by`, ordered by `newer_first`. Its
/// documentation says that the sort is stable, so the result holds the records
/// of `v` with no record before a newer one, and records of the same time in
/// their order in `v`.
#[verifier::external_body]
fn sort_newest_first(v: Vec<AtRecord>) -> (r: Vec<AtRecord>)
    ensures
        sorted_newest_first(v@, r@),
{
    v.into_iter().sorted_by(|a, b| newer_first(a, b)).collect()
}

/// The feed of a page: the records of all batches, newest first.
pub fn merge_records(batches: Vec<Vec<AtRecord>>) -> (r: RecordsRes)
    ensures
        sorted_newest_first(all_of(batches@.map_values(|b: Vec<AtRecord>| b@)), r.records@),
        r.cursor is None,
{
    let ghost bs = batches@.map_values(|b: Vec<AtRecord>| b@);
    let mut batches = batches;
    let n = batches.len();
    // the batches in reverse, so that popping gives them in order
    let mut rest: Vec<Vec<AtRecord>> = Vec::new();
    while batches.len() > 0
        invariant
            rest@.len() + batches@.len() == n,
            n == bs.len(),
            forall|k: int| 0 <= k < batches@.len() ==> #[trigger] batches@[k]@ == bs[k],
            forall|k: int|
                0 <= k < rest@.len() ==> #[trigger] rest@[k]@ == bs[n - 1 - k],
        decreases batches.len(),
    {
        let b = batches.pop().unwrap();
        rest.push(b);
    }
    let mut all: Vec<AtRecord> = Vec::new();
    let mut i: usize = 0;
    while i < n
        invariant
            i <= n,
            rest@.len() == n - i,
            n == bs.len(),
            forall|k: int|
                0 <= k < rest@.len() ==> #[trigger] rest@[k]@ == bs[n - 1 - k],
            all@ == all_of(bs.take(i as int)),
        decreases n - i,
    {
        let mut b = rest.pop().unwrap();
        assert(b@ == bs[i as int]);
        assert(bs.take(i + 1).drop_last() =~= bs.take(i as int));
        all.append(&mut b);
        assert(all@ == all_of(bs.take(i + 1)));
        i = i + 1;
    }
    assert(bs.take(n as int) =~= bs);
    let records = sort_newest_first(all);
    RecordsRes { records, cursor: None }
}

/// Every record of the feed comes from one of the batches, and every record of
/// the batches is in the feed.
pub proof fn law_feed_keeps_records(batches: Seq<Seq<AtRecord>>, feed: Seq<AtRecord>, x: AtRecord)
    requires
        sorted_newest_first(all_of(batches), feed),
    ensures
        feed.contains(x) <==> all_of(batches).contains(x),
{
    let s = all_of(batches);
    let t = x.timestamp;
    let p = |r: AtRecord| r.timestamp == t;
    assert(stamped_at(feed, t) == stamped_at(s, t));
    if feed.contains(x) {
        let i = choose|i: int| 0 <= i < feed.len() && feed[i] == x;
        feed.lemma_filter_contains(p, i);
        assert(s.filter(p).contains(x));
        s.lemma_filter_contains_rev(p, x);
    }
    if s.contains(x) {
        let i = choose|i: int| 0 <= i < s.len() && s[i] == x;
        s.lemma_filter_contains(p, i);
        assert(feed.filter(p).contains(x));
        feed.lemma_filter_contains_rev(p, x);
    }
}


/// The kind of record a source's service gives (`AtRecord::kind`), which is
/// also the service's name on a page.
pub open spec fn source_kind(s: RecordSource) -> Seq<char> {
    match s {
        RecordSource::Frontpage => "frontpage"@,
        RecordSource::Whitewind => "whitewind"@,
        RecordSource::Pinksea => "pinksea"@,
        RecordSource::Ruthub => "ruthub"@,
        RecordSource::Smokesignal => "smokesignal"@,
        RecordSource::Grain => "grain"@,
        RecordSource::Recipe => "recipe"@,
        RecordSource::Leaflet => "leaflet"@,
    }
}

/// The sources a page's feed gathers by service name.
pub open spec fn is_feed_source(s: RecordSource) -> bool {
    !(s is Grain || s is Recipe || s is Leaflet)
}

/// A service name selects a source for the feed exactly where it names one of
/// the feed's sources, and then it selects that very source: each of the five
/// feed services maps to its own source, and a page with that one service
/// gathers from that one source.
pub proof fn law_feed_source_by_name(name: Seq<char>, s: RecordSource)
    ensures
        feed_source(name) == Some(s) <==> (is_feed_source(s) && source_kind(s) == name),
        is_feed_source(s) ==> feed_plan(seq![source_kind(s)]) == seq![s],
{
    reveal_strlit("frontpage");
    reveal_strlit("whitewind");
    reveal_strlit("pinksea");
    reveal_strlit("ruthub");
    reveal_strlit("smokesignal");
    assert("whitewind"@[0] != "frontpage"@[0]);
    assert("pinksea"@[0] != "frontpage"@[0]);
    assert("pinksea"@[0] != "whitewind"@[0]);
    assert("ruthub"@[0] != "frontpage"@[0]);
    assert("ruthub"@[0] != "whitewind"@[0]);
    assert("ruthub"@[0] != "pinksea"@[0]);
    assert("smokesignal"@[0] != "frontpage"@[0]);
    assert("smokesignal"@[0] != "whitewind"@[0]);
    assert("smokesignal"@[0] != "pinksea"@[0]);
    assert("smokesignal"@[0] != "ruthub"@[0]);
    if is_feed_source(s) {
        let one = seq![source_kind(s)];
        assert(one.drop_last() =~= Seq::<Seq<char>>::empty());
        assert(one.last() == source_kind(s));
        assert(feed_source(source_kind(s)) == Some(s));
        assert(feed_plan(one.drop_last()).len() == 0);
        assert(feed_plan(one) == feed_plan(one.drop_last()).push(s));
        assert(feed_plan(one) =~= seq![s]);
    }
}
} // verus!
