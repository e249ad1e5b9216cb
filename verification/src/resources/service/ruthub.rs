//! Ruthub: kanban and writing (`com.ruthub.entry`).
use vstd::prelude::*;
use vstd::string::StringExecFns;

use crate::resources::atpage::AtRecord;
use crate::text::{blank, decimal, int_text, is_blank, str_eq};

verus! {

pub struct EntryListResp {
    pub records: Vec<EntryResp>,
    pub cursor: Option<String>,
}

pub struct EntryResp {
    pub uri: String,
    pub cid: String,
    pub value: EntryValue,
}

#[allow(non_snake_case)]
pub struct EntryValue {
    pub typ: String,
    pub title: String,
    pub cover: String,
    pub content: String,
    pub visibility: String,
    pub id: i64,
    pub createdAt: i64,
    pub updatedAt: i64,
}

/// The collection of entries.
pub const RUTHUB_COLLECTION: &'static str = "com.ruthub.entry";

/// The entries that may be shown: the public ones.
pub open spec fn public_entries(s: Seq<EntryResp>) -> Seq<EntryResp> {
    s.filter(|e: EntryResp| e.value.visibility@ == "public"@)
}

/// `r` shows the entry `e` of the repository `did`; a blank cover shows no
/// picture.
pub open spec fn is_ruthub_record(did: Seq<char>, e: EntryResp, r: AtRecord) -> bool {
    &&& r.kind@ == "ruthub"@
    &&& r.title@ == e.value.title@
    &&& r.link@ == "https://ruthub.com/p/"@ + did + "/"@ + decimal(e.value.id as int)
    &&& r.content@ == e.value.content@
    &&& if blank(e.value.cover@) {
        r.images@.len() == 0
    } else {
        r.images@.len() == 1 && r.images@[0]@ == e.value.cover@
    }
    &&& r.timestamp == e.value.updatedAt
}

/// The record an entry of `did` shows as.
pub fn ruthub_record(did: &str, entry: &EntryResp) -> (r: AtRecord)
    ensures
        is_ruthub_record(did@, *entry, r),
{
    let mut link = String::from_str("https://ruthub.com/p/");
    link.append(did);
    link.append("/");
    let id = int_text(entry.value.id);
    link.append(id.as_str());
    let mut images: Vec<String> = Vec::new();
    if !is_blank(entry.value.cover.as_str()) {
        images.push(entry.value.cover.clone());
    }
    AtRecord {
        kind: String::from_str("ruthub"),
        title: entry.value.title.clone(),
        link,
        content: entry.value.content.clone(),
        images,
        timestamp: entry.value.updatedAt,
    }
}

/// The records of the public entries of a listing of `did`, in the order
/// listed, and the cursor of the listing.
pub fn ruthub_records(did: &str, list: EntryListResp) -> (r: (Vec<AtRecord>, Option<String>))
    ensures
        r.0@.len() == public_entries(list.records@).len(),
        forall|i: int|
            0 <= i < r.0@.len() ==> is_ruthub_record(
                did@,
                public_entries(list.records@)[i],
                #[trigger] r.0@[i],
            ),
        r.1 == list.cursor,
{
    let mut recs: Vec<AtRecord> = Vec::new();
    let mut i: usize = 0;
    while i < list.records.len()
        invariant
            i <= list.records@.len(),
            recs@.len() == public_entries(list.records@.take(i as int)).len(),
            forall|k: int|
                0 <= k < recs@.len() ==> is_ruthub_record(
                    did@,
                    public_entries(list.records@.take(i as int))[k],
                    #[trigger] recs@[k],
                ),
        decreases list.records@.len() - i,
    {
        let ghost pre = list.records@.take(i as int);
        assert(list.records@.take(i + 1).drop_last() =~= pre);
        reveal_with_fuel(Seq::filter, 1);
        if str_eq(list.records[i].value.visibility.as_str(), "public") {
            let rec = ruthub_record(did, &list.records[i]);
            recs.push(rec);
        }
        i = i + 1;
    }
    assert(list.records@.take(list.records@.len() as int) =~= list.records@);
    (recs, list.cursor)
}


/// Only public entries are shown.
pub proof fn law_only_public_entries_shown(s: Seq<EntryResp>)
    ensures
        forall|i: int|
            0 <= i < public_entries(s).len() ==> (#[trigger] public_entries(s)[i]).value.visibility@
                == "public"@,
{
    broadcast use vstd::seq_lib::group_filter_ensures;
}


/// The record of an entry shows the entry's title and content, its time is
/// the entry's update time, and its one picture is the cover, where the entry
/// has one that is not blank.
pub proof fn law_ruthub_record_shows_entry(did: Seq<char>, e: EntryResp, r: AtRecord)
    requires
        is_ruthub_record(did, e, r),
    ensures
        r.kind@ == "ruthub"@,
        r.title@ == e.value.title@,
        r.content@ == e.value.content@,
        r.timestamp == e.value.updatedAt,
        r.images@.len() == (if blank(e.value.cover@) { 0int } else { 1int }),
        !blank(e.value.cover@) ==> r.images@[0]@ == e.value.cover@,
{
}
} // verus!
