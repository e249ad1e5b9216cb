//! PinkSea: oekaki drawings (`com.shinolabs.pinksea.oekaki`).
use vstd::prelude::*;
use vstd::string::StringExecFns;

use crate::helper::utils::{stamped, str_to_secs};
use crate::resources::atpage::AtRecord;
use crate::resources::record::{uri_parts, uri_parts_of};

verus! {

pub struct PinkSeaListResp {
    pub records: Vec<PinkSeaResp>,
    pub cursor: Option<String>,
}

pub struct PinkSeaResp {
    pub uri: String,
    pub cid: String,
    pub value: PinkSeaValue,
}

#[allow(non_snake_case)]
pub struct PinkSeaValue {
    pub kind: String,
    pub image: PinkSeaImage,
    pub nsfw: bool,
    pub createdAt: String,
}

pub struct PinkSeaImage {
    pub blob: PinkSeaBlob,
}

pub struct PinkSeaBlob {
    pub linkref: PinkSeaBlobLink,
}

pub struct PinkSeaBlobLink {
    pub link: String,
}

/// The collection of drawings.
pub const PINKSEA_COLLECTION: &'static str = "com.shinolabs.pinksea.oekaki";

/// The drawings that may be shown: those not marked nsfw.
pub open spec fn shown_drawings(s: Seq<PinkSeaResp>) -> Seq<PinkSeaResp> {
    s.filter(|e: PinkSeaResp| !e.value.nsfw)
}

/// `r` shows the drawing `e`: a link to its page and its picture.
pub open spec fn is_pinksea_record(e: PinkSeaResp, r: AtRecord) -> bool {
    let (did, _col, rkey) = uri_parts_of(e.uri@);
    &&& r.kind@ == "pinksea"@
    &&& r.title@.len() == 0
    &&& r.link@ == "https://pinksea.art/"@ + did + "/oekaki/"@ + rkey
    &&& r.content@.len() == 0
    &&& r.images@.len() == 1
    &&& r.images@[0]@ == "https://harbor.pinksea.art/"@ + did + "/"@ + e.value.image.blob.linkref.link@
    &&& stamped(r.timestamp, e.value.createdAt@)
}

/// The record a drawing shows as.
pub fn pinksea_record(entry: &PinkSeaResp) -> (r: AtRecord)
    ensures
        is_pinksea_record(*entry, r),
{
    let (did, _col, rkey) = uri_parts(entry.uri.as_str());
    let mut link = String::from_str("https://pinksea.art/");
    link.append(did.as_str());
    link.append("/oekaki/");
    link.append(rkey.as_str());
    let mut img_link = String::from_str("https://harbor.pinksea.art/");
    img_link.append(did.as_str());
    img_link.append("/");
    img_link.append(entry.value.image.blob.linkref.link.as_str());
    let mut images: Vec<String> = Vec::new();
    images.push(img_link);
    AtRecord {
        kind: String::from_str("pinksea"),
        title: String::new(),
        link,
        content: String::new(),
        images,
        timestamp: str_to_secs(entry.value.createdAt.as_str()),
    }
}

/// The records of a listed page of drawings, nsfw ones left out, in the order
/// listed, and the cursor of the listing.
pub fn pinksea_records(list: PinkSeaListResp) -> (r: (Vec<AtRecord>, Option<String>))
    ensures
        r.0@.len() == shown_drawings(list.records@).len(),
        forall|i: int|
            0 <= i < r.0@.len() ==> is_pinksea_record(
                shown_drawings(list.records@)[i],
                #[trigger] r.0@[i],
            ),
        r.1 == list.cursor,
{
    let mut recs: Vec<AtRecord> = Vec::new();
    let mut i: usize = 0;
    while i < list.records.len()
        invariant
            i <= list.records@.len(),
            recs@.len() == shown_drawings(list.records@.take(i as int)).len(),
            forall|k: int|
                0 <= k < recs@.len() ==> is_pinksea_record(
                    shown_drawings(list.records@.take(i as int))[k],
                    #[trigger] recs@[k],
                ),
        decreases list.records@.len() - i,
    {
        let ghost pre = list.records@.take(i as int);
        assert(list.records@.take(i + 1).drop_last() =~= pre);
        reveal_with_fuel(Seq::filter, 1);
        if !list.records[i].value.nsfw {
            let rec = pinksea_record(&list.records[i]);
            recs.push(rec);
        }
        i = i + 1;
    }
    assert(list.records@.take(list.records@.len() as int) =~= list.records@);
    (recs, list.cursor)
}


/// No drawing marked nsfw is shown.
pub proof fn law_no_nsfw_drawing_shown(s: Seq<PinkSeaResp>)
    ensures
        forall|i: int|
            0 <= i < shown_drawings(s).len() ==> !(#[trigger] shown_drawings(s)[i]).value.nsfw,
{
    broadcast use vstd::seq_lib::group_filter_ensures;
}


/// The record of a drawing shows the drawing alone: its one picture is the
/// drawing's blob on the PinkSea harbor, under the drawing's own did, and the
/// record has no title and no text.
pub proof fn law_drawing_record_shows_image(e: PinkSeaResp, r: AtRecord)
    requires
        is_pinksea_record(e, r),
    ensures
        r.kind@ == "pinksea"@,
        r.images@.len() == 1,
        r.images@[0]@ == "https://harbor.pinksea.art/"@ + uri_parts_of(e.uri@).0 + "/"@
            + e.value.image.blob.linkref.link@,
        r.title@.len() == 0 && r.content@.len() == 0,
{
}
} // verus!
