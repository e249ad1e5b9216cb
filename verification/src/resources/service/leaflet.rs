//! leaflet pub
//! lexicons:
//! https://tangled.org/@leaflet.pub/leaflet/blob/main/lexicons/pub/leaflet/document.json
//! https://tangled.org/leaflet.pub/leaflet/blob/main/lexicons/site/standard/document.json
use vstd::prelude::*;
use vstd::string::StringExecFns;

use crate::helper::utils::{stamped, str_to_secs};
use crate::resources::atpage::{text_or_empty, unwrap_text, AtRecord};
use crate::resources::record::{target_fits, target_of, uri_parts, uri_parts_of, RecordTarget};
use crate::text::{has_prefix, starts_with, str_eq};

verus! {

pub struct LeafListResp {
    pub records: Vec<LeafResp>,
    pub cursor: Option<String>,
}

pub struct LeafResp {
    pub uri: String,
    pub cid: String,
    pub value: LeafValue,
}

#[allow(non_snake_case)]
pub struct LeafValue {
    pub kind: String,
    pub title: String,
    pub description: Option<String>,
    pub site: String,
    pub publishedAt: String,
}

pub struct PublicationResp {
    pub uri: String,
    pub cid: String,
    pub value: PublicationValue,
}

pub struct PublicationValue {
    pub kind: String,
    pub name: String,
    pub url: String,
    pub description: Option<String>,
}

/// The collection of documents.
pub const DOCUMENT_COLLECTION: &'static str = "site.standard.document";

/// The collection of publications.
pub const PUBLICATION_COLLECTION: &'static str = "site.standard.publication";

/// The base addresses of the publications read so far, by publication at-URI.
pub struct BasePaths {
    entries: Vec<(String, String)>,
}

/// The map that a list of (publication, address) pairs stands for: a later
/// pair wins over an earlier one.
pub open spec fn paths_map(s: Seq<(String, String)>) -> Map<Seq<char>, Seq<char>>
    decreases s.len(),
{
    if s.len() == 0 {
        Map::empty()
    } else {
        paths_map(s.drop_last()).insert(s.last().0@, s.last().1@)
    }
}

proof fn lemma_paths_map_tail(s: Seq<(String, String)>, j: int, p: Seq<char>)
    requires
        0 <= j <= s.len(),
        forall|k: int| j <= k < s.len() ==> (#[trigger] s[k]).0@ != p,
    ensures
        paths_map(s).contains_key(p) == paths_map(s.take(j)).contains_key(p),
        paths_map(s).contains_key(p) ==> paths_map(s)[p] == paths_map(s.take(j))[p],
    decreases s.len() - j,
{
    if j < s.len() {
        let t = s.drop_last();
        assert(s.last() == s[s.len() - 1]);
        assert forall|k: int| j <= k < t.len() implies (#[trigger] t[k]).0@ != p by {
            assert(t[k] == s[k]);
        }
        lemma_paths_map_tail(t, j, p);
        assert(t.take(j) =~= s.take(j));
    } else {
        assert(s.take(j) =~= s);
    }
}

impl View for BasePaths {
    type V = Map<Seq<char>, Seq<char>>;

    closed spec fn view(&self) -> Map<Seq<char>, Seq<char>> {
        paths_map(self.entries@)
    }
}

impl BasePaths {
    /// No publication read yet.
    pub fn new() -> (r: BasePaths)
        ensures
            r@ == Map::<Seq<char>, Seq<char>>::empty(),
    {
        BasePaths { entries: Vec::new() }
    }

    /// The base address kept for a publication, if it was read.
    pub fn get(&self, publication: &str) -> (r: Option<String>)
        ensures
            r is Some <==> self@.contains_key(publication@),
            r matches Some(u) ==> u@ == self@[publication@],
    {
        let mut j = self.entries.len();
        while j > 0
            invariant
                j <= self.entries@.len(),
                forall|k: int| j <= k < self.entries@.len() ==> (#[trigger] self.entries@[k]).0@
                    != publication@,
            decreases j,
        {
            let e = &self.entries[j - 1];
            if str_eq(e.0.as_str(), publication) {
                proof {
                    lemma_paths_map_tail(self.entries@, j as int, publication@);
                    let t = self.entries@.take(j as int);
                    assert(t.last() == self.entries@[j - 1]);
                }
                return Some(e.1.clone());
            }
            j = j - 1;
        }
        proof {
            lemma_paths_map_tail(self.entries@, 0, publication@);
        }
        None
    }

    /// Remember the base address of a publication.
    pub fn insert(&mut self, publication: String, url: String)
        ensures
            final(self)@ == old(self)@.insert(publication@, url@),
    {
        let ghost before = self.entries@;
        self.entries.push((publication, url));
        proof {
            assert(self.entries@.drop_last() =~= before);
        }
    }
}

/// Where a document's base address comes from: the remembered address of its
/// publication, or the publication record to read.
pub open spec fn base_path_fits(
    paths: Map<Seq<char>, Seq<char>>,
    serv: Seq<char>,
    e: LeafResp,
    r: Result<String, RecordTarget>,
) -> bool {
    let (e_did, _col, _rkey) = uri_parts_of(e.uri@);
    match r {
        Ok(b) => paths.contains_key(e.value.site@) && b@ == paths[e.value.site@],
        Err(t) => !paths.contains_key(e.value.site@) && target_fits(
            t,
            e_did,
            serv,
            e.value.site@,
            PUBLICATION_COLLECTION@,
        ),
    }
}

/// The base address of a document's publication, or the publication to read
/// (at `serv` where it is in the document's own repository).
pub fn base_path_for(paths: &BasePaths, serv: &str, entry: &LeafResp) -> (r: Result<
    String,
    RecordTarget,
>)
    ensures
        base_path_fits(paths@, serv@, *entry, r),
{
    match paths.get(entry.value.site.as_str()) {
        Some(b) => Ok(b),
        None => {
            let (e_did, _col, _rkey) = uri_parts(entry.uri.as_str());
            Err(target_of(e_did.as_str(), serv, entry.value.site.as_str(), PUBLICATION_COLLECTION))
        },
    }
}

/// The address of a document: its publication's base address (with
/// `https://` put in front where it lacks it), a slash and its record key.
pub open spec fn document_link(base: Seq<char>, uri: Seq<char>) -> Seq<char> {
    let (_did, _col, rkey) = uri_parts_of(uri);
    if has_prefix(base, "https://"@) {
        base + "/"@ + rkey
    } else {
        "https://"@ + base + "/"@ + rkey
    }
}

/// `r` shows the document `e` of a publication whose base address is `base`.
pub open spec fn is_document_record(e: LeafResp, base: Seq<char>, r: AtRecord) -> bool {
    &&& r.kind@ == "leaflet"@
    &&& r.title@ == e.value.title@
    &&& r.link@ == document_link(base, e.uri@)
    &&& r.content@ == text_or_empty(e.value.description)
    &&& r.images@.len() == 0
    &&& stamped(r.timestamp, e.value.publishedAt@)
}

/// The record of a document, once its publication's base address is known.
pub fn document_record(entry: &LeafResp, base_path: &str) -> (r: AtRecord)
    ensures
        is_document_record(*entry, base_path@, r),
{
    let (_e_did, _col, rkey) = uri_parts(entry.uri.as_str());
    let mut link = if starts_with(base_path, "https://") {
        String::from_str(base_path)
    } else {
        let mut l = String::from_str("https://");
        l.append(base_path);
        l
    };
    link.append("/");
    link.append(rkey.as_str());
    AtRecord {
        kind: String::from_str("leaflet"),
        title: entry.value.title.clone(),
        link,
        content: unwrap_text(entry.value.description.clone()),
        images: Vec::new(),
        timestamp: str_to_secs(entry.value.publishedAt.as_str()),
    }
}


/// The base address of a document whose publication had to be read, once the
/// read is done: where it gave the publication, its address, which is then
/// remembered for the document's publication; where it failed, none, and
/// nothing is remembered.
pub fn base_after_read(
    paths: &mut BasePaths,
    entry: &LeafResp,
    fetched: Option<PublicationValue>,
) -> (r: Option<String>)
    ensures
        match fetched {
            Some(p) => {
                &&& final(paths)@ == old(paths)@.insert(entry.value.site@, p.url@)
                &&& r matches Some(b) && b@ == p.url@
            },
            None => final(paths)@ == old(paths)@ && r is None,
        },
{
    match fetched {
        Some(p) => {
            let url = p.url;
            paths.insert(entry.value.site.clone(), url.clone());
            Some(url)
        },
        None => None,
    }
}

/// The documents of the first `n` that are shown, each with its base address:
/// those whose base address is known (`bases[i]` is `Some`), in order.
pub open spec fn shown_documents(docs: Seq<LeafResp>, bases: Seq<Option<String>>, n: int) -> Seq<
    (LeafResp, Seq<char>),
>
    decreases n,
{
    if n <= 0 {
        Seq::empty()
    } else {
        let prev = shown_documents(docs, bases, n - 1);
        if n - 1 < bases.len() && bases[n - 1] is Some {
            prev.push((docs[n - 1], bases[n - 1]->Some_0@))
        } else {
            prev
        }
    }
}

/// The documents of a listing, none where it could not be read.
pub open spec fn document_entries(list: Option<LeafListResp>) -> Seq<LeafResp> {
    match list {
        Some(l) => l.records@,
        None => Seq::empty(),
    }
}

/// The cursor of a listing, none where it could not be read.
pub open spec fn listing_cursor(list: Option<LeafListResp>) -> Option<String> {
    match list {
        Some(l) => l.cursor,
        None => None,
    }
}

/// The Leaflet feed of a repository, from its listing of documents (`None`
/// where it could not be read) and the base address found for each document
/// (`None` where its publication could not be read): the records of the
/// documents with a base address, in the order listed, and the listing's cursor.
pub fn leaflet_feed(list: Option<LeafListResp>, bases: Vec<Option<String>>) -> (r: (
    Vec<AtRecord>,
    Option<String>,
))
    ensures
        ({
            let docs = document_entries(list);
            let shown = shown_documents(docs, bases@, docs.len() as int);
            &&& r.0@.len() == shown.len()
            &&& forall|i: int|
                0 <= i < shown.len() ==> is_document_record(shown[i].0, shown[i].1, #[trigger] r.0@[i])
        }),
        r.1 == listing_cursor(list),
{
    match list {
        None => {
            proof {
                assert(document_entries(list).len() == 0);
            }
            (Vec::new(), None)
        },
        Some(list) => {
            let ghost docs = list.records@;
            let mut recs: Vec<AtRecord> = Vec::new();
            let mut i: usize = 0;
            while i < list.records.len()
                invariant
                    docs == list.records@,
                    i <= docs.len(),
                    recs@.len() == shown_documents(docs, bases@, i as int).len(),
                    forall|j: int|
                        0 <= j < recs@.len() ==> is_document_record(
                            shown_documents(docs, bases@, i as int)[j].0,
                            shown_documents(docs, bases@, i as int)[j].1,
                            #[trigger] recs@[j],
                        ),
                decreases docs.len() - i,
            {
                let ghost before = recs@;
                if i < bases.len() {
                    match &bases[i] {
                        Some(b) => {
                            let rec = document_record(&list.records[i], b.as_str());
                            recs.push(rec);
                        },
                        None => {},
                    }
                }
                i = i + 1;
                assert forall|j: int| 0 <= j < recs@.len() implies is_document_record(
                    shown_documents(docs, bases@, i as int)[j].0,
                    shown_documents(docs, bases@, i as int)[j].1,
                    #[trigger] recs@[j],
                ) by {
                    if j < before.len() {
                        assert(recs@[j] == before[j]);
                    }
                }
            }
            (recs, list.cursor)
        },
    }
}

/// Once the address of a document's publication is remembered, the next
/// document of that publication reuses it and reads no publication record.
pub proof fn law_remembered_publication_is_reused(
    paths: Map<Seq<char>, Seq<char>>,
    serv: Seq<char>,
    e: LeafResp,
    url: Seq<char>,
    r: Result<String, RecordTarget>,
)
    requires
        base_path_fits(paths.insert(e.value.site@, url), serv, e, r),
    ensures
        r matches Ok(b) && b@ == url,
{
}


/// The record of a document shows its title and its description (or
/// nothing), and its link is under its publication's base address.
pub proof fn law_document_record_shows_entry(e: LeafResp, base: Seq<char>, r: AtRecord)
    requires
        is_document_record(e, base, r),
    ensures
        r.kind@ == "leaflet"@,
        r.title@ == e.value.title@,
        r.content@ == text_or_empty(e.value.description),
        has_prefix(base, "https://"@) ==> r.link@.subrange(0, base.len() as int) == base,
{
    if has_prefix(base, "https://"@) {
        assert(r.link@.subrange(0, base.len() as int) =~= base);
    }
}
} // verus!
