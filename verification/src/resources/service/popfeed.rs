//! Review book, movie, ...
use vstd::prelude::*;
use vstd::string::StringExecFns;

use crate::helper::utils::{stamped, str_to_secs};
use crate::resources::atpage::{text_or_empty, unwrap_text, AtRecord};
use crate::resources::record::{reversed, target_fits, target_of, uri_parts, uri_parts_of, RecordTarget};
use crate::text::{blank, is_blank, str_eq};

verus! {

pub struct ListItemsResp {
    pub records: Vec<ListItemResp>,
    pub cursor: Option<String>,
}

pub struct ListItemResp {
    pub uri: String,
    pub cid: String,
    pub value: ListItemValue,
}

#[allow(non_snake_case)]
pub struct ListItemValue {
    pub typ: String,
    pub addedAt: String,
    pub listUri: String,
    pub creativeWorkType: String,
    pub title: Option<String>,
    pub listType: Option<String>,
    pub posterUrl: Option<String>,
    pub backdropUrl: Option<String>,
    pub description: Option<String>,
}

pub struct ListResp {
    pub uri: String,
    pub cid: String,
    pub value: ListValue,
}

#[allow(non_snake_case)]
pub struct ListValue {
    pub typ: String,
    pub name: String,
    pub createdAt: String,
    pub listType: String,
    pub description: String,
}

pub struct LikesResp {
    pub records: Vec<LikeResp>,
    pub cursor: Option<String>,
}

pub struct LikeResp {
    pub uri: String,
    pub cid: String,
    pub value: LikeValue,
}

#[allow(non_snake_case)]
pub struct LikeValue {
    pub typ: String,
    pub createdAt: String,
    pub subjectUri: String,
    pub subjectType: String,
}

pub struct NotesResp {
    pub records: Vec<NoteResp>,
    pub cursor: Option<String>,
}

pub struct NoteResp {
    pub uri: String,
    pub cid: String,
    pub value: NoteValue,
}

#[allow(non_snake_case)]
pub struct NoteValue {
    pub typ: String,
    pub title: String,
    pub text: String,
    pub posterUrl: String,
    pub backdropUrl: String,
    pub createdAt: String,
    pub releaseDate: String,
    pub creativeWorkType: String,
}

pub struct ReviewsResp {
    pub records: Vec<ReviewResp>,
    pub cursor: Option<String>,
}

pub struct ReviewResp {
    pub uri: String,
    pub cid: String,
    pub value: ReviewValue,
}

#[allow(non_snake_case)]
pub struct ReviewValue {
    pub typ: String,
    pub title: String,
    pub text: String,
    pub containsSpoilers: bool,
    pub createdAt: String,
    pub creativeWorkType: String,
    pub rating: usize,
}

/// The collections of reviews, notes, likes and list items.
pub const REVIEW_COLLECTION: &'static str = "social.popfeed.feed.review";

pub const NOTE_COLLECTION: &'static str = "social.popfeed.feed.note";

pub const LIKE_COLLECTION: &'static str = "social.popfeed.feed.like";

pub const LIST_ITEM_COLLECTION: &'static str = "social.popfeed.feed.listItem";

/// The star (U+2B50) of a review's rating.
pub const STAR: char = '\u{2B50}';

/// The number of stars a rating earns: half the rating, at most five.
pub open spec fn star_count(rating: usize) -> int {
    if rating / 2 < 5 {
        (rating / 2) as int
    } else {
        5
    }
}

/// `n` stars in a row.
pub open spec fn stars(n: int) -> Seq<char> {
    Seq::new(n as nat, |i: int| STAR)
}

/// The stars of a rating (`"⭐".repeat((rating / 2).min(5))`).
pub fn rating_stars(rating: usize) -> (r: String)
    ensures
        r@ == stars(star_count(rating)),
{
    let n: usize = if rating / 2 < 5 {
        rating / 2
    } else {
        5
    };
    let mut v: Vec<char> = Vec::new();
    let mut i: usize = 0;
    while i < n
        invariant
            i <= n,
            n == star_count(rating),
            v@ == stars(i as int),
        decreases n - i,
    {
        v.push(STAR);
        i = i + 1;
        assert(v@ =~= stars(i as int));
    }
    crate::text::from_chars(&v)
}

/// The address of a review on popfeed.social, from its at-URI.
pub open spec fn review_link(uri: Seq<char>) -> Seq<char> {
    "https://popfeed.social/review/"@ + uri
}

/// The address of a note on popfeed.social, from its at-URI.
pub open spec fn note_link(uri: Seq<char>) -> Seq<char> {
    "https://popfeed.social/notes/"@ + uri
}

/// The address of a list on popfeed.social, from its at-URI.
pub open spec fn list_link(uri: Seq<char>) -> Seq<char> {
    "https://popfeed.social/list/"@ + uri
}

fn link_with(prefix: &str, uri: &str) -> (r: String)
    ensures
        r@ == prefix@ + uri@,
{
    let mut link = String::from_str(prefix);
    link.append(uri);
    link
}

/// `r` shows the review `e`: title, kind of work and stars.
pub open spec fn is_review_record(e: ReviewResp, r: AtRecord) -> bool {
    &&& r.kind@ == "popfeed"@
    &&& r.title@ == "Review: "@ + e.value.title@ + " ["@ + e.value.creativeWorkType@ + "] "@ + stars(
        star_count(e.value.rating),
    )
    &&& r.link@ == review_link(e.uri@)
    &&& r.content@ == e.value.text@
    &&& r.images@.len() == 0
    &&& stamped(r.timestamp, e.value.createdAt@)
}

/// The record a review shows as.
pub fn review_record(entry: &ReviewResp) -> (r: AtRecord)
    ensures
        is_review_record(*entry, r),
{
    let mut title = String::from_str("Review: ");
    title.append(entry.value.title.as_str());
    title.append(" [");
    title.append(entry.value.creativeWorkType.as_str());
    title.append("] ");
    let s = rating_stars(entry.value.rating);
    title.append(s.as_str());
    AtRecord {
        kind: String::from_str("popfeed"),
        title,
        link: link_with("https://popfeed.social/review/", entry.uri.as_str()),
        content: entry.value.text.clone(),
        images: Vec::new(),
        timestamp: str_to_secs(entry.value.createdAt.as_str()),
    }
}

/// The records of a listing of reviews, in the order listed.
pub fn review_records(list: &ReviewsResp) -> (r: Vec<AtRecord>)
    ensures
        r@.len() == list.records@.len(),
        forall|i: int| 0 <= i < r@.len() ==> is_review_record(list.records@[i], #[trigger] r@[i]),
{
    let mut recs: Vec<AtRecord> = Vec::new();
    let mut i: usize = 0;
    while i < list.records.len()
        invariant
            i <= list.records@.len(),
            recs@.len() == i,
            forall|k: int| 0 <= k < i ==> is_review_record(list.records@[k], #[trigger] recs@[k]),
        decreases list.records@.len() - i,
    {
        let rec = review_record(&list.records[i]);
        recs.push(rec);
        i = i + 1;
    }
    recs
}

/// `r` shows the note `e`.
pub open spec fn is_note_record(e: NoteResp, r: AtRecord) -> bool {
    &&& r.kind@ == "popfeed"@
    &&& r.title@ == "Note on "@ + e.value.title@
    &&& r.link@ == note_link(e.uri@)
    &&& r.content@ == e.value.text@
    &&& r.images@.len() == 0
    &&& stamped(r.timestamp, e.value.createdAt@)
}

/// The record a note shows as.
pub fn note_record(entry: &NoteResp) -> (r: AtRecord)
    ensures
        is_note_record(*entry, r),
{
    let mut title = String::from_str("Note on ");
    title.append(entry.value.title.as_str());
    AtRecord {
        kind: String::from_str("popfeed"),
        title,
        link: link_with("https://popfeed.social/notes/", entry.uri.as_str()),
        content: entry.value.text.clone(),
        images: Vec::new(),
        timestamp: str_to_secs(entry.value.createdAt.as_str()),
    }
}

/// The records of a listing of notes, in the order listed.
pub fn note_records(list: &NotesResp) -> (r: Vec<AtRecord>)
    ensures
        r@.len() == list.records@.len(),
        forall|i: int| 0 <= i < r@.len() ==> is_note_record(list.records@[i], #[trigger] r@[i]),
{
    let mut recs: Vec<AtRecord> = Vec::new();
    let mut i: usize = 0;
    while i < list.records.len()
        invariant
            i <= list.records@.len(),
            recs@.len() == i,
            forall|k: int| 0 <= k < i ==> is_note_record(list.records@[k], #[trigger] recs@[k]),
        decreases list.records@.len() - i,
    {
        let rec = note_record(&list.records[i]);
        recs.push(rec);
        i = i + 1;
    }
    recs
}

/// What a like is of, and the record to read for it.
pub enum LikeSubject {
    /// a list, read in the collection its at-URI names
    List(RecordTarget),
    /// a review
    Review(RecordTarget),
    /// a note
    Note(RecordTarget),
    /// anything else: the like is not shown
    Other,
}

/// The subject of a like of `did` (kept at `serv`), chosen by its subject type.
pub open spec fn like_subject_fits(did: Seq<char>, serv: Seq<char>, e: LikeResp, r: LikeSubject) -> bool {
    let uri = e.value.subjectUri@;
    let (_s_did, s_col, _s_rkey) = uri_parts_of(uri);
    let ty = e.value.subjectType@;
    if ty == "list"@ {
        r matches LikeSubject::List(t) && target_fits(t, did, serv, uri, s_col)
    } else if ty == "review"@ {
        r matches LikeSubject::Review(t) && target_fits(t, did, serv, uri, REVIEW_COLLECTION@)
    } else if ty == "note"@ {
        r matches LikeSubject::Note(t) && target_fits(t, did, serv, uri, NOTE_COLLECTION@)
    } else {
        r is Other
    }
}

/// What a like is of.
pub fn like_subject(did: &str, serv: &str, entry: &LikeResp) -> (r: LikeSubject)
    ensures
        like_subject_fits(did@, serv@, *entry, r),
{
    let uri = entry.value.subjectUri.as_str();
    let ty = entry.value.subjectType.as_str();
    if str_eq(ty, "list") {
        let (_s_did, s_col, _s_rkey) = uri_parts(uri);
        LikeSubject::List(target_of(did, serv, uri, s_col.as_str()))
    } else if str_eq(ty, "review") {
        LikeSubject::Review(target_of(did, serv, uri, REVIEW_COLLECTION))
    } else if str_eq(ty, "note") {
        LikeSubject::Note(target_of(did, serv, uri, NOTE_COLLECTION))
    } else {
        LikeSubject::Other
    }
}

/// `r` shows the like `e` of a subject with this title, text and address.
pub open spec fn is_like_record(
    e: LikeResp,
    title: Seq<char>,
    content: Seq<char>,
    link: Seq<char>,
    r: AtRecord,
) -> bool {
    &&& r.kind@ == "popfeed"@
    &&& r.title@ == "Like "@ + e.value.subjectType@ + ": "@ + title
    &&& r.link@ == link
    &&& r.content@ == content
    &&& r.images@.len() == 0
    &&& stamped(r.timestamp, e.value.createdAt@)
}

fn like_record(entry: &LikeResp, title: String, content: String, link: String) -> (r: AtRecord)
    ensures
        is_like_record(*entry, title@, content@, link@, r),
{
    let mut t = String::from_str("Like ");
    t.append(entry.value.subjectType.as_str());
    t.append(": ");
    t.append(title.as_str());
    AtRecord {
        kind: String::from_str("popfeed"),
        title: t,
        link,
        content,
        images: Vec::new(),
        timestamp: str_to_secs(entry.value.createdAt.as_str()),
    }
}

/// The record of a like of a list, once the list was read.
pub fn like_list_record(entry: &LikeResp, lst: ListValue) -> (r: AtRecord)
    ensures
        is_like_record(*entry, lst.name@, lst.description@, list_link(entry.value.subjectUri@), r),
{
    let link = link_with("https://popfeed.social/list/", entry.value.subjectUri.as_str());
    like_record(entry, lst.name, lst.description, link)
}

/// The record of a like of a review, once the review was read.
pub fn like_review_record(entry: &LikeResp, rv: ReviewValue) -> (r: AtRecord)
    ensures
        is_like_record(*entry, rv.title@, rv.text@, review_link(entry.value.subjectUri@), r),
{
    let link = link_with("https://popfeed.social/review/", entry.value.subjectUri.as_str());
    like_record(entry, rv.title, rv.text, link)
}

/// The record of a like of a note, once the note was read.
pub fn like_note_record(entry: &LikeResp, nt: NoteValue) -> (r: AtRecord)
    ensures
        is_like_record(*entry, nt.title@, nt.text@, note_link(entry.value.subjectUri@), r),
{
    let link = link_with("https://popfeed.social/notes/", entry.value.subjectUri.as_str());
    like_record(entry, nt.title, nt.text, link)
}

/// The list that a list item of `did` (kept at `serv`) was added to, read in
/// the collection its at-URI names.
pub fn list_item_target(did: &str, serv: &str, entry: &ListItemResp) -> (r: RecordTarget)
    ensures
        target_fits(r, did@, serv@, entry.value.listUri@, uri_parts_of(entry.value.listUri@).1),
{
    let (_l_did, l_col, _l_rkey) = uri_parts(entry.value.listUri.as_str());
    target_of(did, serv, entry.value.listUri.as_str(), l_col.as_str())
}

/// `r` shows that the item `e` was added to the list `lst`; the item's poster
/// is its picture unless it is blank or absent.
pub open spec fn is_list_item_record(e: ListItemResp, lst: ListValue, r: AtRecord) -> bool {
    let poster = text_or_empty(e.value.posterUrl);
    &&& r.kind@ == "popfeed"@
    &&& r.title@ == "Add ["@ + e.value.creativeWorkType@ + "] "@ + text_or_empty(e.value.title)
        + " to list: "@ + lst.name@
    &&& r.link@ == list_link(e.value.listUri@)
    &&& r.content@ == lst.description@
    &&& if blank(poster) {
        r.images@.len() == 0
    } else {
        r.images@.len() == 1 && r.images@[0]@ == poster
    }
    &&& stamped(r.timestamp, e.value.addedAt@)
}

/// The record of a list item, once its list was read.
pub fn list_item_record(entry: &ListItemResp, lst: ListValue) -> (r: AtRecord)
    ensures
        is_list_item_record(*entry, lst, r),
{
    let item_title = unwrap_text(entry.value.title.clone());
    let item_img = unwrap_text(entry.value.posterUrl.clone());
    let mut images: Vec<String> = Vec::new();
    if !is_blank(item_img.as_str()) {
        images.push(item_img);
    }
    let mut title = String::from_str("Add [");
    title.append(entry.value.creativeWorkType.as_str());
    title.append("] ");
    title.append(item_title.as_str());
    title.append(" to list: ");
    title.append(lst.name.as_str());
    AtRecord {
        kind: String::from_str("popfeed"),
        title,
        link: link_with("https://popfeed.social/list/", entry.value.listUri.as_str()),
        content: lst.description,
        images,
        timestamp: str_to_secs(entry.value.addedAt.as_str()),
    }
}


/// What the read of a liked subject gave back.
pub enum LikedValue {
    List(ListValue),
    Review(ReviewValue),
    Note(NoteValue),
}

/// The subject a like shows: the value read for it, where there is one and it
/// is of the type the like names; otherwise the like is not shown.
pub open spec fn like_shown(e: LikeResp, v: Option<LikedValue>) -> Option<LikedValue> {
    let ty = e.value.subjectType@;
    match v {
        Some(LikedValue::List(_)) => if ty == "list"@ { v } else { None },
        Some(LikedValue::Review(_)) => if ty == "review"@ { v } else { None },
        Some(LikedValue::Note(_)) => if ty == "note"@ { v } else { None },
        None => None,
    }
}

/// `r` shows the like `e` of the subject `v`.
pub open spec fn is_liked_record(e: LikeResp, v: LikedValue, r: AtRecord) -> bool {
    let uri = e.value.subjectUri@;
    match v {
        LikedValue::List(l) => is_like_record(e, l.name@, l.description@, list_link(uri), r),
        LikedValue::Review(rv) => is_like_record(e, rv.title@, rv.text@, review_link(uri), r),
        LikedValue::Note(nt) => is_like_record(e, nt.title@, nt.text@, note_link(uri), r),
    }
}

/// The record of a like, given what the read of its subject gave back.
pub fn liked_record(entry: &LikeResp, fetched: Option<LikedValue>) -> (r: Option<AtRecord>)
    ensures
        match like_shown(*entry, fetched) {
            Some(v) => r matches Some(x) && is_liked_record(*entry, v, x),
            None => r is None,
        },
{
    let ty = entry.value.subjectType.as_str();
    match fetched {
        Some(LikedValue::List(l)) => if str_eq(ty, "list") {
            Some(like_list_record(entry, l))
        } else {
            None
        },
        Some(LikedValue::Review(rv)) => if str_eq(ty, "review") {
            Some(like_review_record(entry, rv))
        } else {
            None
        },
        Some(LikedValue::Note(nt)) => if str_eq(ty, "note") {
            Some(like_note_record(entry, nt))
        } else {
            None
        },
        None => None,
    }
}

/// The likes that are shown, each with its subject, in the order listed.
pub open spec fn shown_likes(s: Seq<(LikeResp, Option<LikedValue>)>) -> Seq<(LikeResp, LikedValue)>
    decreases s.len(),
{
    if s.len() == 0 {
        Seq::empty()
    } else {
        let prev = shown_likes(s.drop_last());
        match like_shown(s.last().0, s.last().1) {
            Some(v) => prev.push((s.last().0, v)),
            None => prev,
        }
    }
}

/// The list items whose list was read, each with its list, in the order listed.
pub open spec fn shown_items(s: Seq<(ListItemResp, Option<ListValue>)>) -> Seq<(ListItemResp, ListValue)>
    decreases s.len(),
{
    if s.len() == 0 {
        Seq::empty()
    } else {
        let prev = shown_items(s.drop_last());
        match s.last().1 {
            Some(l) => prev.push((s.last().0, l)),
            None => prev,
        }
    }
}

/// The entries of a listing, none where it could not be read.
pub open spec fn review_entries(list: Option<ReviewsResp>) -> Seq<ReviewResp> {
    match list {
        Some(l) => l.records@,
        None => Seq::empty(),
    }
}

/// The entries of a listing, none where it could not be read.
pub open spec fn note_entries(list: Option<NotesResp>) -> Seq<NoteResp> {
    match list {
        Some(l) => l.records@,
        None => Seq::empty(),
    }
}

/// `recs` is the Popfeed feed: the reviews, then the notes, then the likes
/// whose subject was read, then the list items whose list was read, each
/// group in the order listed.
pub open spec fn is_popfeed_feed(
    reviews: Seq<ReviewResp>,
    notes: Seq<NoteResp>,
    likes: Seq<(LikeResp, LikedValue)>,
    items: Seq<(ListItemResp, ListValue)>,
    recs: Seq<AtRecord>,
) -> bool {
    let a = reviews.len();
    let b = a + notes.len();
    let c = b + likes.len();
    &&& recs.len() == c + items.len()
    &&& forall|i: int| 0 <= i < a ==> is_review_record(reviews[i], #[trigger] recs[i])
    &&& forall|i: int| 0 <= i < notes.len() ==> is_note_record(notes[i], #[trigger] recs[a + i])
    &&& forall|i: int|
        0 <= i < likes.len() ==> is_liked_record(likes[i].0, likes[i].1, #[trigger] recs[b + i])
    &&& forall|i: int|
        0 <= i < items.len() ==> is_list_item_record(items[i].0, items[i].1, #[trigger] recs[c + i])
}

/// The records of the likes, given what the read of each subject gave back:
/// those whose subject was read, in the order listed.
fn liked_records(likes: Vec<(LikeResp, Option<LikedValue>)>) -> (r: Vec<AtRecord>)
    ensures
        r@.len() == shown_likes(likes@).len(),
        forall|i: int|
            0 <= i < r@.len() ==> is_liked_record(
                shown_likes(likes@)[i].0,
                shown_likes(likes@)[i].1,
                #[trigger] r@[i],
            ),
{
    let ghost orig = likes@;
    let n = likes.len();
    let mut rest = reversed(likes);
    let mut recs: Vec<AtRecord> = Vec::new();
    let mut i: usize = 0;
    while i < n
        invariant
            n == orig.len(),
            i <= n,
            rest@.len() == n - i,
            forall|k: int| 0 <= k < rest@.len() ==> #[trigger] rest@[k] == orig[n - 1 - k],
            recs@.len() == shown_likes(orig.take(i as int)).len(),
            forall|j: int|
                0 <= j < recs@.len() ==> is_liked_record(
                    shown_likes(orig.take(i as int))[j].0,
                    shown_likes(orig.take(i as int))[j].1,
                    #[trigger] recs@[j],
                ),
        decreases n - i,
    {
        let ghost last = rest@.len() - 1;
        assert(rest@[last] == orig[i as int]);
        let (entry, fetched) = rest.pop().unwrap();
        let ghost before = recs@;
        assert(orig.take(i + 1).drop_last() =~= orig.take(i as int));
        assert(orig.take(i + 1).last() == orig[i as int]);
        let rec = liked_record(&entry, fetched);
        match rec {
            Some(x) => recs.push(x),
            None => {},
        }
        i = i + 1;
        assert forall|j: int| 0 <= j < recs@.len() implies is_liked_record(
            shown_likes(orig.take(i as int))[j].0,
            shown_likes(orig.take(i as int))[j].1,
            #[trigger] recs@[j],
        ) by {
            if j < before.len() {
                assert(recs@[j] == before[j]);
            }
        }
    }
    assert(orig.take(n as int) =~= orig);
    recs
}

/// The records of the list items, given what the read of each one's list gave
/// back: those whose list was read, in the order listed.
fn list_item_records(items: Vec<(ListItemResp, Option<ListValue>)>) -> (r: Vec<AtRecord>)
    ensures
        r@.len() == shown_items(items@).len(),
        forall|i: int|
            0 <= i < r@.len() ==> is_list_item_record(
                shown_items(items@)[i].0,
                shown_items(items@)[i].1,
                #[trigger] r@[i],
            ),
{
    let ghost orig = items@;
    let n = items.len();
    let mut rest = reversed(items);
    let mut recs: Vec<AtRecord> = Vec::new();
    let mut i: usize = 0;
    while i < n
        invariant
            n == orig.len(),
            i <= n,
            rest@.len() == n - i,
            forall|k: int| 0 <= k < rest@.len() ==> #[trigger] rest@[k] == orig[n - 1 - k],
            recs@.len() == shown_items(orig.take(i as int)).len(),
            forall|j: int|
                0 <= j < recs@.len() ==> is_list_item_record(
                    shown_items(orig.take(i as int))[j].0,
                    shown_items(orig.take(i as int))[j].1,
                    #[trigger] recs@[j],
                ),
        decreases n - i,
    {
        let ghost last = rest@.len() - 1;
        assert(rest@[last] == orig[i as int]);
        let (entry, fetched) = rest.pop().unwrap();
        let ghost before = recs@;
        assert(orig.take(i + 1).drop_last() =~= orig.take(i as int));
        assert(orig.take(i + 1).last() == orig[i as int]);
        match fetched {
            Some(lst) => {
                let x = list_item_record(&entry, lst);
                recs.push(x);
            },
            None => {},
        }
        i = i + 1;
        assert forall|j: int| 0 <= j < recs@.len() implies is_list_item_record(
            shown_items(orig.take(i as int))[j].0,
            shown_items(orig.take(i as int))[j].1,
            #[trigger] recs@[j],
        ) by {
            if j < before.len() {
                assert(recs@[j] == before[j]);
            }
        }
    }
    assert(orig.take(n as int) =~= orig);
    recs
}

/// The Popfeed feed of a repository, from what its reads gave back: the
/// listing of reviews and of notes (`None` where it could not be read), each
/// like with what the read of its subject gave (`None` where the subject is of
/// another type or could not be read), and each list item with what the read
/// of its list gave. The reviews come first, then the notes, the likes whose
/// subject was read, and the list items whose list was read; the feed has no
/// cursor of its own.
pub fn popfeed_feed(
    reviews: Option<ReviewsResp>,
    notes: Option<NotesResp>,
    likes: Vec<(LikeResp, Option<LikedValue>)>,
    items: Vec<(ListItemResp, Option<ListValue>)>,
) -> (r: (Vec<AtRecord>, Option<String>))
    ensures
        is_popfeed_feed(
            review_entries(reviews),
            note_entries(notes),
            shown_likes(likes@),
            shown_items(items@),
            r.0@,
        ),
        r.1 is None,
{
    let mut recs: Vec<AtRecord> = Vec::new();
    match &reviews {
        Some(list) => {
            let mut part = review_records(list);
            recs.append(&mut part);
        },
        None => {},
    }
    let a = recs.len();
    match &notes {
        Some(list) => {
            let mut part = note_records(list);
            recs.append(&mut part);
        },
        None => {},
    }
    let b = recs.len();
    let mut part = liked_records(likes);
    recs.append(&mut part);
    let c = recs.len();
    let mut part = list_item_records(items);
    recs.append(&mut part);
    proof {
        let rs = review_entries(reviews);
        let ns = note_entries(notes);
        assert(a == rs.len());
        assert(b == a + ns.len());
        assert forall|i: int| 0 <= i < a implies is_review_record(rs[i], #[trigger] recs@[i]) by {}
    }
    (recs, None)
}


/// A review never shows more than five stars, and shows one star for every
/// two points of its rating below ten.
pub proof fn law_stars_at_most_five(rating: usize)
    ensures
        stars(star_count(rating)).len() <= 5,
        rating < 10 ==> stars(star_count(rating)).len() == rating / 2,
{
}


/// The record of a note shows the note's text as its content: notes with the
/// same text show the same content, whatever their titles.
pub proof fn law_note_record_shows_text(e: NoteResp, r: AtRecord, e2: NoteResp, r2: AtRecord)
    requires
        is_note_record(e, r),
        is_note_record(e2, r2),
    ensures
        r.content@ == e.value.text@,
        e.value.text@ == e2.value.text@ ==> r.content@ == r2.content@,
{
}

/// A review's record shows the review's text; a like's record shows the
/// text of what was liked (a list's description, a review's or a note's
/// text); a list item's record shows the list's description.
pub proof fn law_popfeed_records_show_text(
    e: ReviewResp,
    r: AtRecord,
    l: LikeResp,
    v: LikedValue,
    rl: AtRecord,
    i: ListItemResp,
    lst: ListValue,
    ri: AtRecord,
)
    requires
        is_review_record(e, r),
        is_liked_record(l, v, rl),
        is_list_item_record(i, lst, ri),
    ensures
        r.content@ == e.value.text@,
        rl.content@ == (match v {
            LikedValue::List(x) => x.description@,
            LikedValue::Review(x) => x.text@,
            LikedValue::Note(x) => x.text@,
        }),
        ri.content@ == lst.description@,
{
}
} // verus!
