//! Federated link aggregator
//! lexicons:
//! https://github.com/likeandscribe/frontpage/blob/main/lexicons/fyi/unravel/frontpage/post.json
use vstd::prelude::*;
use vstd::string::StringExecFns;

use crate::helper::utils::{stamped, str_to_secs};
use crate::resources::atpage::AtRecord;
use crate::resources::record::{
    reversed, target_fits, target_of, uri_parts, uri_parts_of, RecordTarget, ServiceAt,
};
use crate::text::str_eq;

verus! {

pub struct FrontpageListResp {
    pub records: Vec<FrontpageResp>,
    pub cursor: Option<String>,
}

pub struct FrontpageResp {
    pub uri: String,
    pub cid: String,
    pub value: FrontpageValue,
}

#[allow(non_snake_case)]
pub struct FrontpageValue {
    pub kind: String,
    pub title: String,
    pub url: String,
    pub createdAt: String,
}

pub struct CommentsResp {
    pub records: Vec<CommentResp>,
    pub cursor: Option<String>,
}

pub struct CommentResp {
    pub uri: String,
    pub cid: String,
    pub value: CommentValue,
}

#[allow(non_snake_case)]
pub struct CommentValue {
    pub typ: String,
    pub content: String,
    pub post: PostSub,
    pub createdAt: String,
}

pub struct VotesResp {
    pub records: Vec<VoteResp>,
    pub cursor: Option<String>,
}

pub struct VoteResp {
    pub uri: String,
    pub cid: String,
    pub value: VoteValue,
}

#[allow(non_snake_case)]
pub struct VoteValue {
    pub typ: String,
    pub subject: PostSub,
    pub createdAt: String,
}

pub struct PostSub {
    pub uri: String,
    pub cid: String,
}

/// The collections of posts, comments and votes.
pub const POST_COLLECTION: &'static str = "fyi.unravel.frontpage.post";

pub const COMMENT_COLLECTION: &'static str = "fyi.unravel.frontpage.comment";

pub const VOTE_COLLECTION: &'static str = "fyi.unravel.frontpage.vote";

/// The address of a post on frontpage.fyi, from the post's at-URI.
pub open spec fn post_link(uri: Seq<char>) -> Seq<char> {
    let (did, _col, rkey) = uri_parts_of(uri);
    "https://frontpage.fyi/post/"@ + did + "/"@ + rkey
}

fn post_link_of(uri: &str) -> (r: String)
    ensures
        r@ == post_link(uri@),
{
    let (did, _col, rkey) = uri_parts(uri);
    let mut link = String::from_str("https://frontpage.fyi/post/");
    link.append(did.as_str());
    link.append("/");
    link.append(rkey.as_str());
    link
}

/// `r` shows the post `e`: its title, then its address in angle brackets.
pub open spec fn is_post_record(e: FrontpageResp, r: AtRecord) -> bool {
    &&& r.kind@ == "frontpage"@
    &&& r.title@ == e.value.title@
    &&& r.link@ == post_link(e.uri@)
    &&& r.content@ == e.value.title@ + " <"@ + e.value.url@ + ">"@
    &&& r.images@.len() == 0
    &&& stamped(r.timestamp, e.value.createdAt@)
}

/// The record a post shows as.
pub fn post_record(entry: &FrontpageResp) -> (r: AtRecord)
    ensures
        is_post_record(*entry, r),
{
    let mut content = entry.value.title.clone();
    content.append(" <");
    content.append(entry.value.url.as_str());
    content.append(">");
    AtRecord {
        kind: String::from_str("frontpage"),
        title: entry.value.title.clone(),
        link: post_link_of(entry.uri.as_str()),
        content,
        images: Vec::new(),
        timestamp: str_to_secs(entry.value.createdAt.as_str()),
    }
}

/// The records of a listing of posts, in the order listed.
pub fn post_records(list: &FrontpageListResp) -> (r: Vec<AtRecord>)
    ensures
        r@.len() == list.records@.len(),
        forall|i: int| 0 <= i < r@.len() ==> is_post_record(list.records@[i], #[trigger] r@[i]),
{
    let mut recs: Vec<AtRecord> = Vec::new();
    let mut i: usize = 0;
    while i < list.records.len()
        invariant
            i <= list.records@.len(),
            recs@.len() == i,
            forall|k: int| 0 <= k < i ==> is_post_record(list.records@[k], #[trigger] recs@[k]),
        decreases list.records@.len() - i,
    {
        let rec = post_record(&list.records[i]);
        recs.push(rec);
        i = i + 1;
    }
    recs
}

/// The post a comment of `did` (kept at `serv`) is on.
pub fn comment_post_target(did: &str, serv: &str, entry: &CommentResp) -> (r: RecordTarget)
    ensures
        target_fits(r, did@, serv@, entry.value.post.uri@, POST_COLLECTION@),
{
    target_of(did, serv, entry.value.post.uri.as_str(), POST_COLLECTION)
}

/// `r` shows the comment `e` on the post read for it (an empty title where it
/// was not found).
pub open spec fn is_comment_record(e: CommentResp, post: Option<FrontpageValue>, r: AtRecord) -> bool {
    let title = match post {
        Some(p) => p.title@,
        None => Seq::<char>::empty(),
    };
    &&& r.kind@ == "frontpage"@
    &&& r.title@ == "Comment on: "@ + title
    &&& r.link@ == post_link(e.value.post.uri@)
    &&& r.content@ == e.value.content@
    &&& r.images@.len() == 0
    &&& stamped(r.timestamp, e.value.createdAt@)
}

/// The record of a comment, once the post it is on was read (or not found).
pub fn comment_record(entry: &CommentResp, post: Option<FrontpageValue>) -> (r: AtRecord)
    ensures
        is_comment_record(*entry, post, r),
{
    let mut title = String::from_str("Comment on: ");
    match post {
        Some(p) => title.append(p.title.as_str()),
        None => {},
    }
    AtRecord {
        kind: String::from_str("frontpage"),
        title,
        link: post_link_of(entry.value.post.uri.as_str()),
        content: entry.value.content.clone(),
        images: Vec::new(),
        timestamp: str_to_secs(entry.value.createdAt.as_str()),
    }
}

/// What a vote is on, and the record to read for it.
pub enum VoteSubject {
    /// a post: read it
    Post(RecordTarget),
    /// a comment: read it, then its post
    Comment(RecordTarget),
    /// anything else: the vote is not shown
    Other,
}

/// The subject of a vote of `did` (kept at `serv`): by the collection of its
/// at-URI, a post or a comment read where `service_for` says.
pub open spec fn vote_subject_fits(
    did: Seq<char>,
    serv: Seq<char>,
    e: VoteResp,
    r: VoteSubject,
) -> bool {
    let (_s_did, s_col, _s_rkey) = uri_parts_of(e.value.subject.uri@);
    if s_col == POST_COLLECTION@ {
        r matches VoteSubject::Post(t) && target_fits(
            t,
            did,
            serv,
            e.value.subject.uri@,
            POST_COLLECTION@,
        )
    } else if s_col == COMMENT_COLLECTION@ {
        r matches VoteSubject::Comment(t) && target_fits(
            t,
            did,
            serv,
            e.value.subject.uri@,
            COMMENT_COLLECTION@,
        )
    } else {
        r is Other
    }
}

/// What a vote is on.
pub fn vote_subject(did: &str, serv: &str, entry: &VoteResp) -> (r: VoteSubject)
    ensures
        vote_subject_fits(did@, serv@, *entry, r),
{
    let s_uri = entry.value.subject.uri.as_str();
    let (_s_did, s_col, _s_rkey) = uri_parts(s_uri);
    if str_eq(s_col.as_str(), POST_COLLECTION) {
        VoteSubject::Post(target_of(did, serv, s_uri, POST_COLLECTION))
    } else if str_eq(s_col.as_str(), COMMENT_COLLECTION) {
        VoteSubject::Comment(target_of(did, serv, s_uri, COMMENT_COLLECTION))
    } else {
        VoteSubject::Other
    }
}

/// `r` shows the vote `e` on a post, with the post's title where it was read.
pub open spec fn is_post_vote_record(e: VoteResp, post: Option<FrontpageValue>, r: AtRecord) -> bool {
    let title = match post {
        Some(p) => p.title@,
        None => "link to post"@,
    };
    &&& r.kind@ == "frontpage"@
    &&& r.title@ == "Vote on Post: "@ + title
    &&& r.link@ == post_link(e.value.subject.uri@)
    &&& r.content@.len() == 0
    &&& r.images@.len() == 0
    &&& stamped(r.timestamp, e.value.createdAt@)
}

/// The record of a vote on a post, once the post was read (or not found).
pub fn post_vote_record(entry: &VoteResp, post: Option<FrontpageValue>) -> (r: AtRecord)
    ensures
        is_post_vote_record(*entry, post, r),
{
    let mut title = String::from_str("Vote on Post: ");
    match post {
        Some(p) => title.append(p.title.as_str()),
        None => title.append("link to post"),
    }
    AtRecord {
        kind: String::from_str("frontpage"),
        title,
        link: post_link_of(entry.value.subject.uri.as_str()),
        content: String::new(),
        images: Vec::new(),
        timestamp: str_to_secs(entry.value.createdAt.as_str()),
    }
}

/// The post to read for a vote of `did` on the comment `cmt`: the comment's
/// post, read at `serv` where that post is in `did`'s own repository, else at
/// the service of the did the vote's subject names.
pub open spec fn comment_vote_post_fits(
    did: Seq<char>,
    serv: Seq<char>,
    e: VoteResp,
    cmt: CommentValue,
    t: RecordTarget,
) -> bool {
    let (s_did, _s_col, _s_rkey) = uri_parts_of(e.value.subject.uri@);
    let (p_did, _p_col, p_rkey) = uri_parts_of(cmt.post.uri@);
    &&& t.collection@ == POST_COLLECTION@
    &&& t.rkey@ == p_rkey
    &&& t.repo@ == p_did
    &&& if did == p_did {
        t.service matches ServiceAt::Known(s) && s@ == serv
    } else {
        t.service matches ServiceAt::Resolve(d) && d@ == s_did
    }
}

/// The post to read for a vote on a comment, once the comment was read.
pub fn comment_vote_post(did: &str, serv: &str, entry: &VoteResp, cmt: &CommentValue) -> (r:
    RecordTarget)
    ensures
        comment_vote_post_fits(did@, serv@, *entry, *cmt, r),
{
    let (s_did, _s_col, _s_rkey) = uri_parts(entry.value.subject.uri.as_str());
    let (p_did, _p_col, p_rkey) = uri_parts(cmt.post.uri.as_str());
    let service = if str_eq(did, p_did.as_str()) {
        ServiceAt::Known(String::from_str(serv))
    } else {
        ServiceAt::Resolve(s_did)
    };
    RecordTarget { collection: String::from_str(POST_COLLECTION), rkey: p_rkey, repo: p_did, service }
}

/// `r` shows the vote `e` on the comment `cmt`, with the title of the
/// comment's post where it was read.
pub open spec fn is_comment_vote_record(
    e: VoteResp,
    cmt: CommentValue,
    post: Option<FrontpageValue>,
    r: AtRecord,
) -> bool {
    let title = match post {
        Some(p) => p.title@,
        None => "link to post"@,
    };
    &&& r.kind@ == "frontpage"@
    &&& r.title@ == "Vote on Comment: "@ + title
    &&& r.link@ == post_link(cmt.post.uri@)
    &&& r.content@ == cmt.content@
    &&& r.images@.len() == 0
    &&& stamped(r.timestamp, e.value.createdAt@)
}

/// The record of a vote on a comment, once the comment and its post were read.
pub fn comment_vote_record(entry: &VoteResp, cmt: CommentValue, post: Option<FrontpageValue>) -> (r:
    AtRecord)
    ensures
        is_comment_vote_record(*entry, cmt, post, r),
{
    let mut title = String::from_str("Vote on Comment: ");
    match post {
        Some(p) => title.append(p.title.as_str()),
        None => title.append("link to post"),
    }
    AtRecord {
        kind: String::from_str("frontpage"),
        title,
        link: post_link_of(cmt.post.uri.as_str()),
        content: cmt.content,
        images: Vec::new(),
        timestamp: str_to_secs(entry.value.createdAt.as_str()),
    }
}


/// What the reads for a vote gave back.
pub enum VoteRead {
    /// a vote on a post, with what the read of the post gave
    Post(Option<FrontpageValue>),
    /// a vote on a comment that was read, with what the read of its post gave
    Comment(CommentValue, Option<FrontpageValue>),
}

/// What a vote shows: what was read for it, where something was and it is of
/// the kind the collection of the vote's subject names; otherwise the vote is
/// not shown.
pub open spec fn vote_shown(e: VoteResp, v: Option<VoteRead>) -> Option<VoteRead> {
    let s_col = uri_parts_of(e.value.subject.uri@).1;
    match v {
        Some(VoteRead::Post(_)) => if s_col == POST_COLLECTION@ { v } else { None },
        Some(VoteRead::Comment(_, _)) => if s_col == COMMENT_COLLECTION@ { v } else { None },
        None => None,
    }
}

/// `r` shows the vote `e` with what was read for it.
pub open spec fn is_voted_record(e: VoteResp, v: VoteRead, r: AtRecord) -> bool {
    match v {
        VoteRead::Post(p) => is_post_vote_record(e, p, r),
        VoteRead::Comment(c, p) => is_comment_vote_record(e, c, p, r),
    }
}

/// The record of a vote, given what the reads for it gave back (`None` where
/// its comment could not be read, or its subject is neither post nor comment).
pub fn vote_after_read(entry: &VoteResp, fetched: Option<VoteRead>) -> (r: Option<AtRecord>)
    ensures
        match vote_shown(*entry, fetched) {
            Some(v) => r matches Some(x) && is_voted_record(*entry, v, x),
            None => r is None,
        },
{
    let (_s_did, s_col, _s_rkey) = uri_parts(entry.value.subject.uri.as_str());
    match fetched {
        Some(VoteRead::Post(p)) => if str_eq(s_col.as_str(), POST_COLLECTION) {
            Some(post_vote_record(entry, p))
        } else {
            None
        },
        Some(VoteRead::Comment(c, p)) => if str_eq(s_col.as_str(), COMMENT_COLLECTION) {
            Some(comment_vote_record(entry, c, p))
        } else {
            None
        },
        None => None,
    }
}

/// The votes that are shown, each with what was read for it, in the order listed.
pub open spec fn shown_votes(s: Seq<(VoteResp, Option<VoteRead>)>) -> Seq<(VoteResp, VoteRead)>
    decreases s.len(),
{
    if s.len() == 0 {
        Seq::empty()
    } else {
        let prev = shown_votes(s.drop_last());
        match vote_shown(s.last().0, s.last().1) {
            Some(v) => prev.push((s.last().0, v)),
            None => prev,
        }
    }
}

/// The records of the votes that are shown, in the order listed.
fn vote_records(votes: Vec<(VoteResp, Option<VoteRead>)>) -> (r: Vec<AtRecord>)
    ensures
        r@.len() == shown_votes(votes@).len(),
        forall|i: int|
            0 <= i < r@.len() ==> is_voted_record(
                shown_votes(votes@)[i].0,
                shown_votes(votes@)[i].1,
                #[trigger] r@[i],
            ),
{
    let ghost orig = votes@;
    let n = votes.len();
    let mut rest = reversed(votes);
    let mut recs: Vec<AtRecord> = Vec::new();
    let mut i: usize = 0;
    while i < n
        invariant
            n == orig.len(),
            i <= n,
            rest@.len() == n - i,
            forall|k: int| 0 <= k < rest@.len() ==> #[trigger] rest@[k] == orig[n - 1 - k],
            recs@.len() == shown_votes(orig.take(i as int)).len(),
            forall|j: int|
                0 <= j < recs@.len() ==> is_voted_record(
                    shown_votes(orig.take(i as int))[j].0,
                    shown_votes(orig.take(i as int))[j].1,
                    #[trigger] recs@[j],
                ),
        decreases n - i,
    {
        let ghost last = rest@.len() - 1;
        assert(rest@[last] == orig[i as int]);
        let (entry, fetched) = rest.pop().unwrap();
        let ghost before = recs@;
        assert(orig.take(i + 1).drop_last() =~= orig.take(i as int));
        assert(orig.take(i + 1).last() == orig[i as int]);
        match vote_after_read(&entry, fetched) {
            Some(x) => recs.push(x),
            None => {},
        }
        i = i + 1;
        assert forall|j: int| 0 <= j < recs@.len() implies is_voted_record(
            shown_votes(orig.take(i as int))[j].0,
            shown_votes(orig.take(i as int))[j].1,
            #[trigger] recs@[j],
        ) by {
            if j < before.len() {
                assert(recs@[j] == before[j]);
            }
        }
    }
    assert(orig.take(n as int) =~= orig);
    recs
}

/// The records of the comments, each with what the read of its post gave
/// back, in the order listed.
fn comment_records(comments: Vec<(CommentResp, Option<FrontpageValue>)>) -> (r: Vec<AtRecord>)
    ensures
        r@.len() == comments@.len(),
        forall|i: int|
            0 <= i < r@.len() ==> is_comment_record(comments@[i].0, comments@[i].1, #[trigger] r@[i]),
{
    let ghost orig = comments@;
    let n = comments.len();
    let mut rest = reversed(comments);
    let mut recs: Vec<AtRecord> = Vec::new();
    let mut i: usize = 0;
    while i < n
        invariant
            n == orig.len(),
            i <= n,
            rest@.len() == n - i,
            forall|k: int| 0 <= k < rest@.len() ==> #[trigger] rest@[k] == orig[n - 1 - k],
            recs@.len() == i,
            forall|j: int| 0 <= j < i ==> is_comment_record(orig[j].0, orig[j].1, #[trigger] recs@[j]),
        decreases n - i,
    {
        let ghost last = rest@.len() - 1;
        assert(rest@[last] == orig[i as int]);
        let (entry, post) = rest.pop().unwrap();
        recs.push(comment_record(&entry, post));
        i = i + 1;
    }
    recs
}

/// The posts of a listing, none where it could not be read.
pub open spec fn post_entries(list: Option<FrontpageListResp>) -> Seq<FrontpageResp> {
    match list {
        Some(l) => l.records@,
        None => Seq::empty(),
    }
}

/// The Frontpage feed of a repository, from what its reads gave back: the
/// listing of posts (`None` where it could not be read), each comment with
/// what the read of its post gave, and each vote with what the reads for it
/// gave. The posts come first, then the comments, then the votes that are
/// shown, each group in the order listed; the feed has no cursor of its own.
pub fn frontpage_feed(
    posts: Option<FrontpageListResp>,
    comments: Vec<(CommentResp, Option<FrontpageValue>)>,
    votes: Vec<(VoteResp, Option<VoteRead>)>,
) -> (r: (Vec<AtRecord>, Option<String>))
    ensures
        r.0@.len() == post_entries(posts).len() + comments@.len() + shown_votes(votes@).len(),
        forall|i: int|
            0 <= i < post_entries(posts).len() ==> is_post_record(post_entries(posts)[i], #[trigger] r.0@[i]),
        forall|i: int|
            0 <= i < comments@.len() ==> is_comment_record(
                comments@[i].0,
                comments@[i].1,
                #[trigger] r.0@[post_entries(posts).len() + i],
            ),
        forall|i: int|
            0 <= i < shown_votes(votes@).len() ==> is_voted_record(
                shown_votes(votes@)[i].0,
                shown_votes(votes@)[i].1,
                #[trigger] r.0@[post_entries(posts).len() + comments@.len() + i],
            ),
        r.1 is None,
{
    let mut recs: Vec<AtRecord> = Vec::new();
    match &posts {
        Some(list) => {
            let mut part = post_records(list);
            recs.append(&mut part);
        },
        None => {},
    }
    let mut part = comment_records(comments);
    recs.append(&mut part);
    let mut part = vote_records(votes);
    recs.append(&mut part);
    (recs, None)
}

/// The record of a post shows the link it shares: its content is the post's
/// title followed by the post's URL in angle brackets, so two posts with the
/// same title that share different URLs never show the same content.
pub proof fn law_post_record_shows_url(e: FrontpageResp, r: AtRecord, e2: FrontpageResp, r2: AtRecord)
    requires
        is_post_record(e, r),
        is_post_record(e2, r2),
    ensures
        ({
            let t = e.value.title@;
            let u = e.value.url@;
            let n = t.len() as int;
            &&& r.content@.len() == n + u.len() + 3
            &&& r.content@.subrange(0, n) == t
            &&& r.content@[n + 1] == '<'
            &&& r.content@.subrange(n + 2, n + 2 + u.len()) == u
            &&& r.content@.last() == '>'
        }),
        e.value.title@ == e2.value.title@ && e.value.url@ != e2.value.url@ ==> r.content@
            != r2.content@,
{
    reveal_strlit(" <");
    reveal_strlit(">");
    let t = e.value.title@;
    let u = e.value.url@;
    let n = t.len() as int;
    assert(r.content@.subrange(0, n) =~= t);
    assert(r.content@.subrange(n + 2, n + 2 + u.len()) =~= u);
    if e.value.title@ == e2.value.title@ && e.value.url@ != e2.value.url@ && r.content@ == r2.content@ {
        let u2 = e2.value.url@;
        assert(r2.content@.subrange(n + 2, n + 2 + u2.len()) =~= u2);
        if u.len() == u2.len() {
            assert(u =~= u2);
        } else {
            assert(r.content@.len() != r2.content@.len());
        }
    }
}


/// A comment's record shows the comment's content; a vote on a post shows no
/// content; a vote on a comment shows that comment's content. Each links to
/// the post it is about.
pub proof fn law_frontpage_records_show_content(
    c: CommentResp,
    cpost: Option<FrontpageValue>,
    rc: AtRecord,
    v: VoteResp,
    vpost: Option<FrontpageValue>,
    rv: AtRecord,
    w: VoteResp,
    cmt: CommentValue,
    wpost: Option<FrontpageValue>,
    rw: AtRecord,
)
    requires
        is_comment_record(c, cpost, rc),
        is_post_vote_record(v, vpost, rv),
        is_comment_vote_record(w, cmt, wpost, rw),
    ensures
        rc.content@ == c.value.content@ && rc.link@ == post_link(c.value.post.uri@),
        rv.content@.len() == 0 && rv.link@ == post_link(v.value.subject.uri@),
        rw.content@ == cmt.content@ && rw.link@ == post_link(cmt.post.uri@),
{
}
} // verus!
