//! nooki.me: reddit-alternative
use vstd::prelude::*;
use vstd::string::StringExecFns;

use crate::helper::utils::{slug_of, slugify, stamped, str_to_secs};
use crate::resources::atpage::AtRecord;
use crate::resources::record::{reversed, target_fits, target_of, RecordTarget};
use crate::text::{chars_of, from_chars, replace_all};

verus! {

pub struct PostsResp {
    pub records: Vec<PostResp>,
    pub cursor: Option<String>,
}

pub struct PostResp {
    pub uri: String,
    pub cid: String,
    pub value: PostValue,
}

#[allow(non_snake_case)]
pub struct PostValue {
    pub typ: String,
    pub title: String,
    pub content: String,
    pub createdAt: String,
    pub communityUrl: String,
    pub communityName: String,
}

pub struct CommentsResp {
    pub records: Vec<CommentResp>,
    pub cursor: Option<String>,
}

pub struct CommentResp {
    pub uri: String,
    pub cid: String,
    pub value: CommentValue,
}

#[allow(non_snake_case)]
pub struct CommentValue {
    pub typ: String,
    pub content: String,
    pub postUri: String,
    pub createdAt: String,
    pub parentUri: String,
}

pub struct UpvotesResp {
    pub records: Vec<UpvoteResp>,
    pub cursor: Option<String>,
}

pub struct UpvoteResp {
    pub uri: String,
    pub cid: String,
    pub value: UpvoteValue,
}

#[allow(non_snake_case)]
pub struct UpvoteValue {
    pub typ: String,
    pub postUri: String,
    pub createdAt: String,
}

/// The collections of posts, comments and upvotes.
pub const POSTS_COLLECTION: &'static str = "community.nooki.posts";

pub const COMMENTS_COLLECTION: &'static str = "community.nooki.comments";

pub const UPVOTES_COLLECTION: &'static str = "community.nooki.upvotes";

/// ASCII punctuation: `!` to `/`, `:` to `@`, `[` to `` ` `` and `{` to `~`.
pub open spec fn is_ascii_punct(c: char) -> bool {
    let n = c as u32;
    (0x21 <= n <= 0x2F) || (0x3A <= n <= 0x40) || (0x5B <= n <= 0x60) || (0x7B <= n <= 0x7E)
}

/// A character a title keeps on its way to a slug: ASCII, not punctuation.
pub open spec fn kept_for_slug(c: char) -> bool {
    (c as u32) < 128 && !is_ascii_punct(c)
}

/// A title made ready for a slug: every `-` becomes a space, then every
/// character that is not ASCII or is ASCII punctuation is dropped.
pub open spec fn bleached(s: Seq<char>) -> Seq<char>
    decreases s.len(),
{
    if s.len() == 0 {
        Seq::<char>::empty()
    } else {
        let c = s.last();
        let rest = bleached(s.drop_last());
        if c == '-' {
            rest.push(' ')
        } else if kept_for_slug(c) {
            rest.push(c)
        } else {
            rest
        }
    }
}

fn is_kept_for_slug(c: char) -> (r: bool)
    ensures
        r == kept_for_slug(c),
{
    let n = c as u32;
    n < 128 && !((0x21 <= n && n <= 0x2F) || (0x3A <= n && n <= 0x40) || (0x5B <= n && n <= 0x60)
        || (0x7B <= n && n <= 0x7E))
}

/// `s.replace("-", " ")` with non-ASCII and punctuation characters filtered out.
pub fn bleach_slug(s: &str) -> (r: String)
    ensures
        r@ == bleached(s@),
{
    let v = chars_of(s);
    let mut out: Vec<char> = Vec::new();
    let mut i: usize = 0;
    while i < v.len()
        invariant
            v@ == s@,
            i <= v.len(),
            out@ == bleached(v@.take(i as int)),
        decreases v.len() - i,
    {
        assert(v@.take(i + 1).drop_last() =~= v@.take(i as int));
        let c = v[i];
        if c == '-' {
            out.push(' ');
        } else if is_kept_for_slug(c) {
            out.push(c);
        }
        i = i + 1;
    }
    assert(v@.take(v.len() as int) =~= v@);
    from_chars(&out)
}

/// The address of a post on nooki.me, made from its title.
pub open spec fn post_link(title: Seq<char>) -> Seq<char> {
    "https://nooki.me/post/"@ + slug_of(bleached(title))
}

fn post_link_of(title: &str) -> (r: String)
    ensures
        r@ == post_link(title@),
{
    let b = bleach_slug(title);
    let slug = slugify(b.as_str());
    let mut link = String::from_str("https://nooki.me/post/");
    link.append(slug.as_str());
    link
}

/// `r` shows the post `e`.
pub open spec fn is_post_record(e: PostResp, r: AtRecord) -> bool {
    &&& r.kind@ == "nooki"@
    &&& r.title@ == e.value.title@
    &&& r.link@ == post_link(e.value.title@)
    &&& r.content@ == e.value.content@
    &&& r.images@.len() == 0
    &&& stamped(r.timestamp, e.value.createdAt@)
}

/// The record a post shows as.
pub fn post_record(entry: &PostResp) -> (r: AtRecord)
    ensures
        is_post_record(*entry, r),
{
    AtRecord {
        kind: String::from_str("nooki"),
        title: entry.value.title.clone(),
        link: post_link_of(entry.value.title.as_str()),
        content: entry.value.content.clone(),
        images: Vec::new(),
        timestamp: str_to_secs(entry.value.createdAt.as_str()),
    }
}

/// The records of a listing of posts, in the order listed.
pub fn post_records(list: &PostsResp) -> (r: Vec<AtRecord>)
    ensures
        r@.len() == list.records@.len(),
        forall|i: int| 0 <= i < r@.len() ==> is_post_record(list.records@[i], #[trigger] r@[i]),
{
    let mut recs: Vec<AtRecord> = Vec::new();
    let mut i: usize = 0;
    while i < list.records.len()
        invariant
            i <= list.records@.len(),
            recs@.len() == i,
            forall|k: int| 0 <= k < i ==> is_post_record(list.records@[k], #[trigger] recs@[k]),
        decreases list.records@.len() - i,
    {
        let rec = post_record(&list.records[i]);
        recs.push(rec);
        i = i + 1;
    }
    recs
}

/// The post that a comment or an upvote of `did` (kept at `serv`) is about.
pub fn post_target(did: &str, serv: &str, post_uri: &str) -> (r: RecordTarget)
    ensures
        target_fits(r, did@, serv@, post_uri@, POSTS_COLLECTION@),
{
    target_of(did, serv, post_uri, POSTS_COLLECTION)
}

/// `r` shows the comment `e` on the post that was read for it, if any: the
/// post's title and link, or the post's at-URI and no link.
pub open spec fn is_comment_record(e: CommentResp, post: Option<PostValue>, r: AtRecord) -> bool {
    let (title, link) = match post {
        Some(p) => (p.title@, post_link(p.title@)),
        None => (e.value.postUri@, Seq::<char>::empty()),
    };
    &&& r.kind@ == "nooki"@
    &&& r.title@ == "Comment on "@ + title
    &&& r.link@ == link
    &&& r.content@ == e.value.content@
    &&& r.images@.len() == 0
    &&& stamped(r.timestamp, e.value.createdAt@)
}

/// The record of a comment, once the post it is on was read (or not found).
pub fn comment_record(entry: &CommentResp, post: Option<PostValue>) -> (r: AtRecord)
    ensures
        is_comment_record(*entry, post, r),
{
    let (title, link) = match post {
        Some(pst) => {
            let link = post_link_of(pst.title.as_str());
            (pst.title, link)
        },
        None => (entry.value.postUri.clone(), String::new()),
    };
    let mut t = String::from_str("Comment on ");
    t.append(title.as_str());
    AtRecord {
        kind: String::from_str("nooki"),
        title: t,
        link,
        content: entry.value.content.clone(),
        images: Vec::new(),
        timestamp: str_to_secs(entry.value.createdAt.as_str()),
    }
}

/// `r` shows the upvote `e` of the post that was read for it, if any: the
/// post's title, link and text, or the post's at-URI alone.
pub open spec fn is_upvote_record(e: UpvoteResp, post: Option<PostValue>, r: AtRecord) -> bool {
    let (title, link, content) = match post {
        Some(p) => (p.title@, post_link(p.title@), p.content@),
        None => (e.value.postUri@, Seq::<char>::empty(), Seq::<char>::empty()),
    };
    &&& r.kind@ == "nooki"@
    &&& r.title@ == "Upvote: "@ + title
    &&& r.link@ == link
    &&& r.content@ == content
    &&& r.images@.len() == 0
    &&& stamped(r.timestamp, e.value.createdAt@)
}

/// The record of an upvote, once the post it is for was read (or not found).
pub fn upvote_record(entry: &UpvoteResp, post: Option<PostValue>) -> (r: AtRecord)
    ensures
        is_upvote_record(*entry, post, r),
{
    let (title, link, content) = match post {
        Some(pst) => {
            let link = post_link_of(pst.title.as_str());
            (pst.title, link, pst.content)
        },
        None => (entry.value.postUri.clone(), String::new(), String::new()),
    };
    let mut t = String::from_str("Upvote: ");
    t.append(title.as_str());
    AtRecord {
        kind: String::from_str("nooki"),
        title: t,
        link,
        content,
        images: Vec::new(),
        timestamp: str_to_secs(entry.value.createdAt.as_str()),
    }
}


/// The records of the comments, each with what the read of its post gave
/// back, in the order listed.
fn comment_records(comments: Vec<(CommentResp, Option<PostValue>)>) -> (r: Vec<AtRecord>)
    ensures
        r@.len() == comments@.len(),
        forall|i: int|
            0 <= i < r@.len() ==> is_comment_record(comments@[i].0, comments@[i].1, #[trigger] r@[i]),
{
    let ghost orig = comments@;
    let n = comments.len();
    let mut rest = reversed(comments);
    let mut recs: Vec<AtRecord> = Vec::new();
    let mut i: usize = 0;
    while i < n
        invariant
            n == orig.len(),
            i <= n,
            rest@.len() == n - i,
            forall|k: int| 0 <= k < rest@.len() ==> #[trigger] rest@[k] == orig[n - 1 - k],
            recs@.len() == i,
            forall|j: int| 0 <= j < i ==> is_comment_record(orig[j].0, orig[j].1, #[trigger] recs@[j]),
        decreases n - i,
    {
        let ghost last = rest@.len() - 1;
        assert(rest@[last] == orig[i as int]);
        let (entry, post) = rest.pop().unwrap();
        recs.push(comment_record(&entry, post));
        i = i + 1;
    }
    recs
}

/// The records of the upvotes, each with what the read of its post gave
/// back, in the order listed.
fn upvote_records(upvotes: Vec<(UpvoteResp, Option<PostValue>)>) -> (r: Vec<AtRecord>)
    ensures
        r@.len() == upvotes@.len(),
        forall|i: int|
            0 <= i < r@.len() ==> is_upvote_record(upvotes@[i].0, upvotes@[i].1, #[trigger] r@[i]),
{
    let ghost orig = upvotes@;
    let n = upvotes.len();
    let mut rest = reversed(upvotes);
    let mut recs: Vec<AtRecord> = Vec::new();
    let mut i: usize = 0;
    while i < n
        invariant
            n == orig.len(),
            i <= n,
            rest@.len() == n - i,
            forall|k: int| 0 <= k < rest@.len() ==> #[trigger] rest@[k] == orig[n - 1 - k],
            recs@.len() == i,
            forall|j: int| 0 <= j < i ==> is_upvote_record(orig[j].0, orig[j].1, #[trigger] recs@[j]),
        decreases n - i,
    {
        let ghost last = rest@.len() - 1;
        assert(rest@[last] == orig[i as int]);
        let (entry, post) = rest.pop().unwrap();
        recs.push(upvote_record(&entry, post));
        i = i + 1;
    }
    recs
}

/// The posts of a listing, none where it could not be read.
pub open spec fn post_entries(list: Option<PostsResp>) -> Seq<PostResp> {
    match list {
        Some(l) => l.records@,
        None => Seq::empty(),
    }
}

/// The nooki feed of a repository, from what its reads gave back: the listing
/// of posts (`None` where it could not be read), and each comment and each
/// upvote with what the read of its post gave. The posts come first, then the
/// comments, then the upvotes, each group in the order listed; the feed has no
/// cursor of its own.
pub fn nooki_feed(
    posts: Option<PostsResp>,
    comments: Vec<(CommentResp, Option<PostValue>)>,
    upvotes: Vec<(UpvoteResp, Option<PostValue>)>,
) -> (r: (Vec<AtRecord>, Option<String>))
    ensures
        r.0@.len() == post_entries(posts).len() + comments@.len() + upvotes@.len(),
        forall|i: int|
            0 <= i < post_entries(posts).len() ==> is_post_record(post_entries(posts)[i], #[trigger] r.0@[i]),
        forall|i: int|
            0 <= i < comments@.len() ==> is_comment_record(
                comments@[i].0,
                comments@[i].1,
                #[trigger] r.0@[post_entries(posts).len() + i],
            ),
        forall|i: int|
            0 <= i < upvotes@.len() ==> is_upvote_record(
                upvotes@[i].0,
                upvotes@[i].1,
                #[trigger] r.0@[post_entries(posts).len() + comments@.len() + i],
            ),
        r.1 is None,
{
    let mut recs: Vec<AtRecord> = Vec::new();
    match &posts {
        Some(list) => {
            let mut part = post_records(list);
            recs.append(&mut part);
        },
        None => {},
    }
    let mut part = comment_records(comments);
    recs.append(&mut part);
    let mut part = upvote_records(upvotes);
    recs.append(&mut part);
    (recs, None)
}


/// What one character of a title becomes on its way to a slug.
pub open spec fn bleach_piece(c: char) -> Seq<char> {
    if c == '-' {
        seq![' ']
    } else if kept_for_slug(c) {
        seq![c]
    } else {
        Seq::<char>::empty()
    }
}

proof fn lemma_bleached_prepend(c: char, rest: Seq<char>)
    ensures
        bleached(seq![c] + rest) == bleach_piece(c) + bleached(rest),
    decreases rest.len(),
{
    let s = seq![c] + rest;
    if rest.len() == 0 {
        assert(s =~= seq![c]);
        assert(s.drop_last() =~= Seq::<char>::empty());
        assert(s.last() == c);
        assert(bleached(s.drop_last()) =~= Seq::<char>::empty());
        assert(bleached(s) =~= bleach_piece(c));
        assert(bleach_piece(c) + bleached(rest) =~= bleach_piece(c));
    } else {
        lemma_bleached_prepend(c, rest.drop_last());
        assert(s.drop_last() =~= seq![c] + rest.drop_last());
        assert(s.last() == rest.last());
        let x = rest.last();
        assert(bleached(s) =~= bleached(s.drop_last()) + bleach_piece(x));
        assert(bleached(rest) =~= bleached(rest.drop_last()) + bleach_piece(x));
    }
}

/// Bleaching a title is what the two steps of the definition say: every `-`
/// replaced by a space, then only ASCII characters that are not punctuation
/// kept; and every character that is left is such a character.
pub proof fn law_bleach_is_replace_then_filter(s: Seq<char>)
    ensures
        bleached(s) == replace_all(s, "-"@, " "@).filter(|c: char| kept_for_slug(c)),
        forall|i: int| 0 <= i < bleached(s).len() ==> kept_for_slug(#[trigger] bleached(s)[i]),
    decreases s.len(),
{
    reveal_strlit("-");
    reveal_strlit(" ");
    let p = |c: char| kept_for_slug(c);
    broadcast use vstd::seq_lib::group_filter_ensures;
    if s.len() == 0 {
        assert(replace_all(s, "-"@, " "@) =~= s);
        reveal_with_fuel(Seq::filter, 1);
        assert(s.filter(p) =~= Seq::<char>::empty());
        assert(bleached(s) =~= Seq::<char>::empty());
    } else {
        let c = s[0];
        let rest = s.skip(1);
        law_bleach_is_replace_then_filter(rest);
        assert(seq![c] + rest =~= s);
        lemma_bleached_prepend(c, rest);
        let r = replace_all(rest, "-"@, " "@);
        let head = if c == '-' {
            seq![' ']
        } else {
            seq![c]
        };
        assert(s.take(1) =~= seq![c]);
        assert("-"@ =~= seq!['-']);
        assert(" "@ =~= seq![' ']);
        assert(has_prefix_dash(s) == (c == '-'));
        assert(replace_all(s, "-"@, " "@) =~= head + r);
        Seq::filter_distributes_over_add(head, r, p);
        reveal_with_fuel(Seq::filter, 2);
        assert(head.filter(p) =~= bleach_piece(c)) by {
            assert(head.drop_last() =~= Seq::<char>::empty());
        }
    }
}

spec fn has_prefix_dash(s: Seq<char>) -> bool {
    crate::text::has_prefix(s, "-"@)
}


/// A post's record shows the post's title and content; a comment's record
/// shows the comment's own content; an upvote's record shows the content of
/// the post it is for, where that post was read, and no content otherwise.
pub proof fn law_nooki_records_show_content(
    p: PostResp,
    rp: AtRecord,
    c: CommentResp,
    cpost: Option<PostValue>,
    rc: AtRecord,
    u: UpvoteResp,
    upost: Option<PostValue>,
    ru: AtRecord,
)
    requires
        is_post_record(p, rp),
        is_comment_record(c, cpost, rc),
        is_upvote_record(u, upost, ru),
    ensures
        rp.title@ == p.value.title@ && rp.content@ == p.value.content@,
        rc.content@ == c.value.content@,
        ru.content@ == (match upost {
            Some(q) => q.content@,
            None => Seq::<char>::empty(),
        }),
{
}
} // verus!
