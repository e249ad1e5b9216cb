//! WhiteWind: blog entries (`com.whtwnd.blog.entry`).
use vstd::prelude::*;
use vstd::string::StringExecFns;

use crate::helper::utils::{stamped, str_to_secs};
use crate::resources::atpage::AtRecord;
use crate::resources::record::{uri_parts, uri_parts_of};

verus! {

/// whitewind: blog service
pub struct WndListResp {
    pub records: Vec<WndResp>,
    pub cursor: Option<String>,
}

/// for record blog entry
pub struct WndResp {
    pub uri: String,
    pub cid: String,
    pub value: WndValue,
}

/// for record blog entry
#[allow(non_snake_case)]
pub struct WndValue {
    pub kind: String,
    pub title: String,
    pub content: String,
    pub createdAt: String,
    pub visibility: Option<String>,
}

/// The collection of blog entries.
pub const WND_COLLECTION: &'static str = "com.whtwnd.blog.entry";

/// The address of a blog entry on whtwnd.com.
pub open spec fn wnd_link(uri: Seq<char>) -> Seq<char> {
    let (did, _col, rkey) = uri_parts_of(uri);
    "https://whtwnd.com/"@ + did + "/"@ + rkey
}

/// `r` shows the blog entry `e`; its time is in seconds.
pub open spec fn is_wnd_record(e: WndResp, r: AtRecord) -> bool {
    &&& r.kind@ == "whitewind"@
    &&& r.title@ == e.value.title@
    &&& r.link@ == wnd_link(e.uri@)
    &&& r.content@ == e.value.content@
    &&& r.images@.len() == 0
    &&& stamped(r.timestamp, e.value.createdAt@)
}

/// The record a blog entry shows as.
pub fn wnd_record(entry: &WndResp) -> (r: AtRecord)
    ensures
        is_wnd_record(*entry, r),
{
    let (did, _col, rkey) = uri_parts(entry.uri.as_str());
    let mut link = String::from_str("https://whtwnd.com/");
    link.append(did.as_str());
    link.append("/");
    link.append(rkey.as_str());
    AtRecord {
        kind: String::from_str("whitewind"),
        title: entry.value.title.clone(),
        link,
        content: entry.value.content.clone(),
        images: Vec::new(),
        timestamp: str_to_secs(entry.value.createdAt.as_str()),
    }
}

/// The records of a listed page of blog entries, in the order listed, and
/// the cursor of the listing.
pub fn wnd_records(list: WndListResp) -> (r: (Vec<AtRecord>, Option<String>))
    ensures
        r.0@.len() == list.records@.len(),
        forall|i: int| 0 <= i < r.0@.len() ==> is_wnd_record(list.records@[i], #[trigger] r.0@[i]),
        r.1 == list.cursor,
{
    let mut recs: Vec<AtRecord> = Vec::new();
    let mut i: usize = 0;
    while i < list.records.len()
        invariant
            i <= list.records@.len(),
            recs@.len() == i,
            forall|k: int| 0 <= k < i ==> is_wnd_record(list.records@[k], #[trigger] recs@[k]),
        decreases list.records@.len() - i,
    {
        let rec = wnd_record(&list.records[i]);
        recs.push(rec);
        i = i + 1;
    }
    (recs, list.cursor)
}


/// The record of a blog entry shows the entry itself: its title, and its
/// Markdown content as the record's content, with no pictures.
pub proof fn law_wnd_record_shows_entry(e: WndResp, r: AtRecord)
    requires
        is_wnd_record(e, r),
    ensures
        r.kind@ == "whitewind"@,
        r.title@ == e.value.title@,
        r.content@ == e.value.content@,
        r.images@.len() == 0,
{
}
} // verus!
