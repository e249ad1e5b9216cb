//! Recipe Exchange: recipes (`exchange.recipe.recipe`).
use vstd::prelude::*;
use vstd::string::StringExecFns;

use crate::helper::utils::{stamped, str_to_secs};
use crate::resources::atpage::AtRecord;
use crate::resources::record::{uri_parts, uri_parts_of};

verus! {

pub struct RecipeListResp {
    pub records: Vec<RecipeResp>,
    pub cursor: Option<String>,
}

pub struct RecipeResp {
    pub uri: String,
    pub cid: String,
    pub value: RecipeValue,
}

#[allow(non_snake_case)]
pub struct RecipeValue {
    pub kind: String,
    pub name: String,
    pub text: String,
    pub updatedAt: String,
    pub embed: Option<RecipeEmbed>,
}

pub struct RecipeEmbed {
    pub kind: String,
    pub images: Vec<RecipeImage>,
}

pub struct RecipeImage {
    pub alt: String,
    pub image: RecipeBlob,
}

pub struct RecipeBlob {
    pub kind: String,
    pub imgref: RecipeImgLink,
}

pub struct RecipeImgLink {
    pub link: String,
}

/// The collection of recipes.
pub const RECIPE_COLLECTION: &'static str = "exchange.recipe.recipe";

/// The thumbnail address of a picture of a recipe kept in the repository `did`.
pub open spec fn recipe_image_url(did: Seq<char>, img: RecipeImage) -> Seq<char> {
    "https://cdn.bsky.app/img/feed_thumbnail/plain/"@ + did + "/"@ + img.image.imgref.link@
}

/// The pictures of a recipe's embed, none where it has no embed.
pub open spec fn embed_images(e: Option<RecipeEmbed>) -> Seq<RecipeImage> {
    match e {
        Some(emb) => emb.images@,
        None => Seq::<RecipeImage>::empty(),
    }
}

/// The Markdown of a recipe's pictures: `![alt](url)` and two spaces for each.
pub open spec fn images_text(did: Seq<char>, imgs: Seq<RecipeImage>) -> Seq<char>
    decreases imgs.len(),
{
    if imgs.len() == 0 {
        Seq::<char>::empty()
    } else {
        images_text(did, imgs.drop_last()) + "!["@ + imgs.last().alt@ + "]("@ + recipe_image_url(
            did,
            imgs.last(),
        ) + ")  "@
    }
}

/// `r` shows the recipe `e`: its pictures as Markdown before its text.
pub open spec fn is_recipe_record(e: RecipeResp, r: AtRecord) -> bool {
    let (did, _col, rkey) = uri_parts_of(e.uri@);
    &&& r.kind@ == "recipe"@
    &&& r.title@ == e.value.name@
    &&& r.link@ == "https://recipe.exchange/recipes/"@ + rkey
    &&& r.content@ == images_text(did, embed_images(e.value.embed)) + " "@ + e.value.text@
    &&& r.images@.len() == 0
    &&& stamped(r.timestamp, e.value.updatedAt@)
}

/// The record a recipe shows as.
pub fn recipe_record(entry: &RecipeResp) -> (r: AtRecord)
    ensures
        is_recipe_record(*entry, r),
{
    let (did, _col, rkey) = uri_parts(entry.uri.as_str());
    let mut link = String::from_str("https://recipe.exchange/recipes/");
    link.append(rkey.as_str());
    let mut imgs_txt = String::new();
    match &entry.value.embed {
        Some(emb) => {
            let mut i: usize = 0;
            while i < emb.images.len()
                invariant
                    i <= emb.images@.len(),
                    imgs_txt@ == images_text(did@, emb.images@.take(i as int)),
                decreases emb.images@.len() - i,
            {
                assert(emb.images@.take(i + 1).drop_last() =~= emb.images@.take(i as int));
                let img = &emb.images[i];
                imgs_txt.append("![");
                imgs_txt.append(img.alt.as_str());
                imgs_txt.append("](");
                imgs_txt.append("https://cdn.bsky.app/img/feed_thumbnail/plain/");
                imgs_txt.append(did.as_str());
                imgs_txt.append("/");
                imgs_txt.append(img.image.imgref.link.as_str());
                imgs_txt.append(")  ");
                i = i + 1;
            }
            assert(emb.images@.take(emb.images@.len() as int) =~= emb.images@);
        },
        None => {},
    }
    let mut content = imgs_txt;
    content.append(" ");
    content.append(entry.value.text.as_str());
    AtRecord {
        kind: String::from_str("recipe"),
        title: entry.value.name.clone(),
        link,
        content,
        images: Vec::new(),
        timestamp: str_to_secs(entry.value.updatedAt.as_str()),
    }
}

/// The records of a listed page of recipes, in the order listed, and the
/// cursor of the listing.
pub fn recipe_records(list: RecipeListResp) -> (r: (Vec<AtRecord>, Option<String>))
    ensures
        r.0@.len() == list.records@.len(),
        forall|i: int|
            0 <= i < r.0@.len() ==> is_recipe_record(list.records@[i], #[trigger] r.0@[i]),
        r.1 == list.cursor,
{
    let mut recs: Vec<AtRecord> = Vec::new();
    let mut i: usize = 0;
    while i < list.records.len()
        invariant
            i <= list.records@.len(),
            recs@.len() == i,
            forall|k: int| 0 <= k < i ==> is_recipe_record(list.records@[k], #[trigger] recs@[k]),
        decreases list.records@.len() - i,
    {
        let rec = recipe_record(&list.records[i]);
        recs.push(rec);
        i = i + 1;
    }
    (recs, list.cursor)
}


/// The record of a recipe is titled by the recipe's name, and its content
/// ends with a space and the recipe's text, after the Markdown of its pictures.
pub proof fn law_recipe_record_shows_text(e: RecipeResp, r: AtRecord)
    requires
        is_recipe_record(e, r),
    ensures
        r.kind@ == "recipe"@,
        r.title@ == e.value.name@,
        r.content@.len() > e.value.text@.len(),
        r.content@.subrange(r.content@.len() - e.value.text@.len(), r.content@.len() as int)
            == e.value.text@,
        r.content@[r.content@.len() - e.value.text@.len() - 1] == ' ',
{
    reveal_strlit(" ");
    let c = r.content@;
    let t = e.value.text@;
    assert(c.subrange(c.len() - t.len(), c.len() as int) =~= t);
}
} // verus!
