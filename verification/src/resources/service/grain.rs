//! Grain: photo galleries (`social.grain.gallery`) and favorites
//! (`social.grain.favorite`).
use vstd::prelude::*;
use vstd::string::StringExecFns;

use crate::helper::utils::{stamped, str_to_secs};
use crate::resources::atpage::{text_or_empty, unwrap_text, AtRecord};
use crate::resources::record::{reversed, uri_parts, uri_parts_of, RecordTarget, ServiceAt};
use crate::text::str_eq;

verus! {

pub struct GalleryListResp {
    pub records: Vec<GalleryResp>,
    pub cursor: Option<String>,
}

pub struct GalleryResp {
    pub uri: String,
    pub cid: String,
    pub value: GalleryValue,
}

#[allow(non_snake_case)]
pub struct GalleryValue {
    pub kind: String,
    pub title: String,
    pub description: Option<String>,
    pub createdAt: String,
}

pub struct FavListResp {
    pub records: Vec<FavResp>,
    pub cursor: Option<String>,
}

pub struct FavResp {
    pub uri: String,
    pub cid: String,
    pub value: FavValue,
}

#[allow(non_snake_case)]
pub struct FavValue {
    pub kind: String,
    pub subject: String,
    pub createdAt: String,
}

/// The collection of galleries.
pub const GALLERY_COLLECTION: &'static str = "social.grain.gallery";

/// The collection of favorites.
pub const FAVORITE_COLLECTION: &'static str = "social.grain.favorite";

/// The address of a gallery on grain.social.
pub open spec fn gallery_link(did: Seq<char>, rkey: Seq<char>) -> Seq<char> {
    "https://grain.social/profile/"@ + did + "/gallery/"@ + rkey
}

fn gallery_link_of(did: &str, rkey: &str) -> (r: String)
    ensures
        r@ == gallery_link(did@, rkey@),
{
    let mut link = String::from_str("https://grain.social/profile/");
    link.append(did);
    link.append("/gallery/");
    link.append(rkey);
    link
}

/// `r` shows the creation of the gallery `e`.
pub open spec fn is_gallery_record(e: GalleryResp, r: AtRecord) -> bool {
    let (did, _col, rkey) = uri_parts_of(e.uri@);
    &&& r.kind@ == "grain"@
    &&& r.title@ == "Created Gallery: "@ + e.value.title@
    &&& r.link@ == gallery_link(did, rkey)
    &&& r.content@ == text_or_empty(e.value.description)
    &&& r.images@.len() == 0
    &&& stamped(r.timestamp, e.value.createdAt@)
}

/// The record a gallery shows as.
pub fn gallery_record(entry: &GalleryResp) -> (r: AtRecord)
    ensures
        is_gallery_record(*entry, r),
{
    let (did, _col, rkey) = uri_parts(entry.uri.as_str());
    let mut title = String::from_str("Created Gallery: ");
    title.append(entry.value.title.as_str());
    AtRecord {
        kind: String::from_str("grain"),
        title,
        link: gallery_link_of(did.as_str(), rkey.as_str()),
        content: unwrap_text(entry.value.description.clone()),
        images: Vec::new(),
        timestamp: str_to_secs(entry.value.createdAt.as_str()),
    }
}

/// The records of a listing of galleries, in the order listed.
pub fn gallery_records(list: &GalleryListResp) -> (r: Vec<AtRecord>)
    ensures
        r@.len() == list.records@.len(),
        forall|i: int| 0 <= i < r@.len() ==> is_gallery_record(list.records@[i], #[trigger] r@[i]),
{
    let mut recs: Vec<AtRecord> = Vec::new();
    let mut i: usize = 0;
    while i < list.records.len()
        invariant
            i <= list.records@.len(),
            recs@.len() == i,
            forall|k: int| 0 <= k < i ==> is_gallery_record(list.records@[k], #[trigger] recs@[k]),
        decreases list.records@.len() - i,
    {
        let rec = gallery_record(&list.records[i]);
        recs.push(rec);
        i = i + 1;
    }
    recs
}

/// The gallery a favorite points at: read at the service of the gallery's
/// own did; a favorite of anything else points at nothing.
pub open spec fn favorite_target_fits(f: FavResp, r: Option<RecordTarget>) -> bool {
    let (g_did, col, g_rkey) = uri_parts_of(f.value.subject@);
    if col == GALLERY_COLLECTION@ {
        &&& r matches Some(t)
        &&& t.collection@ == GALLERY_COLLECTION@
        &&& t.rkey@ == g_rkey
        &&& t.repo@ == g_did
        &&& t.service matches ServiceAt::Resolve(d)
        &&& d@ == g_did
    } else {
        r is None
    }
}

/// The gallery to read for a favorite, if it is one of a gallery.
pub fn favorite_target(fav: &FavResp) -> (r: Option<RecordTarget>)
    ensures
        favorite_target_fits(*fav, r),
{
    let (g_did, col, g_rkey) = uri_parts(fav.value.subject.as_str());
    if str_eq(col.as_str(), GALLERY_COLLECTION) {
        let d = g_did.clone();
        Some(
            RecordTarget {
                collection: String::from_str(GALLERY_COLLECTION),
                rkey: g_rkey,
                repo: g_did,
                service: ServiceAt::Resolve(d),
            },
        )
    } else {
        None
    }
}

/// `r` shows that the user favorited `gallery`, the gallery `f` points at.
pub open spec fn is_favorite_record(f: FavResp, gallery: GalleryValue, r: AtRecord) -> bool {
    let (g_did, _col, g_rkey) = uri_parts_of(f.value.subject@);
    &&& r.kind@ == "grain"@
    &&& r.title@ == "Favorited Gallery: "@ + gallery.title@
    &&& r.link@ == gallery_link(g_did, g_rkey)
    &&& r.content@ == text_or_empty(gallery.description)
    &&& r.images@.len() == 0
    &&& stamped(r.timestamp, gallery.createdAt@)
}

/// The record of a favorite, once the gallery it points at was read.
pub fn favorite_record(fav: &FavResp, gallery: GalleryValue) -> (r: AtRecord)
    ensures
        is_favorite_record(*fav, gallery, r),
{
    let (g_did, _col, g_rkey) = uri_parts(fav.value.subject.as_str());
    let mut title = String::from_str("Favorited Gallery: ");
    title.append(gallery.title.as_str());
    let timestamp = str_to_secs(gallery.createdAt.as_str());
    AtRecord {
        kind: String::from_str("grain"),
        title,
        link: gallery_link_of(g_did.as_str(), g_rkey.as_str()),
        content: unwrap_text(gallery.description),
        images: Vec::new(),
        timestamp,
    }
}


/// The gallery a favorite shows: the one read for it, where the favorite is
/// of a gallery and the read gave one.
pub open spec fn favorite_shown(f: FavResp, g: Option<GalleryValue>) -> Option<GalleryValue> {
    if uri_parts_of(f.value.subject@).1 == GALLERY_COLLECTION@ {
        g
    } else {
        None
    }
}

/// The favorites that are shown, each with its gallery, in the order listed.
pub open spec fn shown_favorites(s: Seq<(FavResp, Option<GalleryValue>)>) -> Seq<(FavResp, GalleryValue)>
    decreases s.len(),
{
    if s.len() == 0 {
        Seq::empty()
    } else {
        let prev = shown_favorites(s.drop_last());
        match favorite_shown(s.last().0, s.last().1) {
            Some(g) => prev.push((s.last().0, g)),
            None => prev,
        }
    }
}

/// The record of a favorite, given what the read of its gallery gave back.
pub fn favorite_after_read(fav: &FavResp, fetched: Option<GalleryValue>) -> (r: Option<AtRecord>)
    ensures
        match favorite_shown(*fav, fetched) {
            Some(g) => r matches Some(x) && is_favorite_record(*fav, g, x),
            None => r is None,
        },
{
    let (_g_did, col, _g_rkey) = uri_parts(fav.value.subject.as_str());
    if str_eq(col.as_str(), GALLERY_COLLECTION) {
        match fetched {
            Some(g) => Some(favorite_record(fav, g)),
            None => None,
        }
    } else {
        None
    }
}

/// The records of the favorites, given what the read of each one's gallery
/// gave back: those that are shown, in the order listed.
fn favorite_records(favs: Vec<(FavResp, Option<GalleryValue>)>) -> (r: Vec<AtRecord>)
    ensures
        r@.len() == shown_favorites(favs@).len(),
        forall|i: int|
            0 <= i < r@.len() ==> is_favorite_record(
                shown_favorites(favs@)[i].0,
                shown_favorites(favs@)[i].1,
                #[trigger] r@[i],
            ),
{
    let ghost orig = favs@;
    let n = favs.len();
    let mut rest = reversed(favs);
    let mut recs: Vec<AtRecord> = Vec::new();
    let mut i: usize = 0;
    while i < n
        invariant
            n == orig.len(),
            i <= n,
            rest@.len() == n - i,
            forall|k: int| 0 <= k < rest@.len() ==> #[trigger] rest@[k] == orig[n - 1 - k],
            recs@.len() == shown_favorites(orig.take(i as int)).len(),
            forall|j: int|
                0 <= j < recs@.len() ==> is_favorite_record(
                    shown_favorites(orig.take(i as int))[j].0,
                    shown_favorites(orig.take(i as int))[j].1,
                    #[trigger] recs@[j],
                ),
        decreases n - i,
    {
        let ghost last = rest@.len() - 1;
        assert(rest@[last] == orig[i as int]);
        let (fav, fetched) = rest.pop().unwrap();
        let ghost before = recs@;
        assert(orig.take(i + 1).drop_last() =~= orig.take(i as int));
        assert(orig.take(i + 1).last() == orig[i as int]);
        match favorite_after_read(&fav, fetched) {
            Some(x) => recs.push(x),
            None => {},
        }
        i = i + 1;
        assert forall|j: int| 0 <= j < recs@.len() implies is_favorite_record(
            shown_favorites(orig.take(i as int))[j].0,
            shown_favorites(orig.take(i as int))[j].1,
            #[trigger] recs@[j],
        ) by {
            if j < before.len() {
                assert(recs@[j] == before[j]);
            }
        }
    }
    assert(orig.take(n as int) =~= orig);
    recs
}

/// The galleries of a listing, none where it could not be read.
pub open spec fn gallery_entries(list: Option<GalleryListResp>) -> Seq<GalleryResp> {
    match list {
        Some(l) => l.records@,
        None => Seq::empty(),
    }
}

/// The Grain feed of a repository, from what its reads gave back: the listing
/// of galleries (`None` where it could not be read), and each favorite with
/// what the read of its gallery gave. The galleries come first, in the order
/// listed, then the favorites of a gallery that was read; the feed has no
/// cursor of its own.
pub fn grain_feed(galleries: Option<GalleryListResp>, favs: Vec<(FavResp, Option<GalleryValue>)>) -> (r: (
    Vec<AtRecord>,
    Option<String>,
))
    ensures
        r.0@.len() == gallery_entries(galleries).len() + shown_favorites(favs@).len(),
        forall|i: int|
            0 <= i < gallery_entries(galleries).len() ==> is_gallery_record(
                gallery_entries(galleries)[i],
                #[trigger] r.0@[i],
            ),
        forall|i: int|
            0 <= i < shown_favorites(favs@).len() ==> is_favorite_record(
                shown_favorites(favs@)[i].0,
                shown_favorites(favs@)[i].1,
                #[trigger] r.0@[gallery_entries(galleries).len() + i],
            ),
        r.1 is None,
{
    let mut recs: Vec<AtRecord> = Vec::new();
    match &galleries {
        Some(list) => {
            let mut part = gallery_records(list);
            recs.append(&mut part);
        },
        None => {},
    }
    let mut part = favorite_records(favs);
    recs.append(&mut part);
    (recs, None)
}

/// The record of a gallery, created or favorited, shows that gallery: its
/// title after what was done with it, and its description (or nothing).
pub proof fn law_grain_records_show_gallery(
    e: GalleryResp,
    r: AtRecord,
    f: FavResp,
    g: GalleryValue,
    r2: AtRecord,
)
    requires
        is_gallery_record(e, r),
        is_favorite_record(f, g, r2),
    ensures
        r.kind@ == "grain"@ && r2.kind@ == "grain"@,
        r.title@ == "Created Gallery: "@ + e.value.title@,
        r.content@ == text_or_empty(e.value.description),
        r2.title@ == "Favorited Gallery: "@ + g.title@,
        r2.content@ == text_or_empty(g.description),
{
}
} // verus!
