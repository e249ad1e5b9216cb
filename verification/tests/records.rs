use atpage::resources::atpage::{feed_sources, merge_records, put_record_request, AtPageValue, AtRecord, LinkEntry, RecordSource};
use atpage::resources::auth::{
    is_err_reply, login_page, login_url, profile_url, resolve_did_url, resolved_service, session_reply,
    refresh_step, usable_url, AuthData, AuthToken, RefreshAction, RefreshEvent, ResolveRes, ResolveService,
};
use atpage::resources::record::{get_record_url, list_record_url, service_for, target_of, uri_parts, ServiceAt};
use atpage::resources::service::frontpage::{
    comment_vote_post, comment_vote_record, frontpage_feed, post_vote_record, vote_after_read, vote_subject,
    CommentResp as FpCommentResp, CommentValue, FrontpageListResp, FrontpageResp, FrontpageValue, PostSub,
    VoteRead, VoteResp, VoteSubject, VoteValue,
};
use atpage::resources::service::grain::{
    favorite_after_read, grain_feed, FavResp, FavValue, GalleryListResp, GalleryResp, GalleryValue,
};
use atpage::resources::service::leaflet::{
    base_after_read, base_path_for, document_record, leaflet_feed, BasePaths, LeafListResp, LeafResp, LeafValue,
    PublicationValue,
};
use atpage::resources::service::nooki::{
    bleach_slug, nooki_feed, post_record, CommentResp, CommentValue as NookiCommentValue, PostResp, PostValue,
    PostsResp, UpvoteResp, UpvoteValue,
};
use atpage::resources::service::pinksea::{
    pinksea_records, PinkSeaBlob, PinkSeaBlobLink, PinkSeaImage, PinkSeaListResp, PinkSeaResp, PinkSeaValue,
};
use atpage::resources::service::popfeed::{
    liked_record, popfeed_feed, rating_stars, review_record, LikeResp, LikeValue, LikedValue, ListItemResp,
    ListItemValue, ListValue, NoteResp, NoteValue, NotesResp, ReviewResp, ReviewValue, ReviewsResp,
};
use atpage::resources::service::recipe::{
    recipe_record, RecipeBlob, RecipeEmbed, RecipeImage, RecipeImgLink, RecipeResp, RecipeValue,
};
use atpage::resources::service::ruthub::{ruthub_records, EntryListResp, EntryResp, EntryValue};
use atpage::resources::service::smokesignal::{schedule, smokesignal_record, SmokeSignalResp, SmokeSignalValue};
use atpage::resources::service::whitewind::{wnd_records, WndListResp, WndResp, WndValue};

fn s(x: &str) -> String {
    x.to_string()
}

fn rec(title: &str, ts: i64) -> AtRecord {
    AtRecord { kind: s("k"), title: s(title), link: s(""), content: s(""), images: vec![], timestamp: ts }
}

fn auth() -> AuthData {
    AuthData {
        host: s("bsky.social"),
        did: s("did:plc:abc"),
        handle: s("alice.bsky.social"),
        access: s("acc"),
        refresh: s("ref"),
        service: s("https://pds.example"),
    }
}

#[test]
fn uri_parts_splits_at_uri() {
    assert_eq!(
        uri_parts("at://did:plc:abc/app.bsky.feed.post/3k2"),
        (s("did:plc:abc"), s("app.bsky.feed.post"), s("3k2"))
    );
    assert_eq!(uri_parts("at://did:plc:abc/col"), (s(""), s(""), s("")));
    assert_eq!(uri_parts("a/b/c/d/e/f"), (s("c"), s("d"), s("e")));
}

#[test]
fn record_urls() {
    assert_eq!(
        get_record_url("one.atpage.page", "self", "https://pds", "did:x"),
        "https://pds/xrpc/com.atproto.repo.getRecord?repo=did:x&collection=one.atpage.page&rkey=self"
    );
    assert_eq!(
        list_record_url("c", "https://pds", "did:x", &None),
        "https://pds/xrpc/com.atproto.repo.listRecords?repo=did:x&collection=c"
    );
    assert_eq!(
        list_record_url("c", "https://pds", "did:x", &Some(s("abc"))),
        "https://pds/xrpc/com.atproto.repo.listRecords?repo=did:x&collection=c&cursor=abc"
    );
    assert_eq!(resolve_did_url("did:plc:abc"), "https://plc.directory/did:plc:abc");
    assert_eq!(profile_url("alice"), "https://api.bsky.app/xrpc/app.bsky.actor.getProfile?actor=alice");
    assert_eq!(login_url("bsky.social"), "https://bsky.social/xrpc/com.atproto.server.createSession");
}

#[test]
fn services_for_other_repositories() {
    assert!(matches!(service_for("did:a", "https://s", "did:a"), ServiceAt::Known(x) if x == "https://s"));
    assert!(matches!(service_for("did:a", "https://s", "did:b"), ServiceAt::Resolve(x) if x == "did:b"));
    let t = target_of("did:a", "https://s", "at://did:b/col/rk", "col2");
    assert_eq!((t.collection.as_str(), t.rkey.as_str(), t.repo.as_str()), ("col2", "rk", "did:b"));
}

#[test]
fn feed_is_newest_first_and_stable() {
    let batches = vec![vec![rec("a", 1), rec("b", 3)], vec![rec("c", 3), rec("d", 2)], vec![]];
    let res = merge_records(batches);
    let titles: Vec<&str> = res.records.iter().map(|r| r.title.as_str()).collect();
    assert_eq!(titles, vec!["b", "c", "d", "a"]);
    assert!(res.cursor.is_none());
}

#[test]
fn feed_sources_follow_services() {
    let got = feed_sources(&vec![s("pinksea"), s("grain"), s("frontpage"), s("pinksea")]);
    assert_eq!(got, vec![RecordSource::Pinksea, RecordSource::Frontpage, RecordSource::Pinksea]);
}

#[test]
fn null_auth() {
    assert!(!auth().is_null());
    let mut a = auth();
    a.service = String::new();
    assert!(a.is_null());
    assert!(AuthData::empty().is_null());
    let t = AuthToken { did: s("d"), handle: s("h"), accessJwt: s("a"), refreshJwt: s("r") };
    let n = AuthData::new("host", t, s("https://svc"));
    assert_eq!((n.host.as_str(), n.did.as_str(), n.access.as_str(), n.service.as_str()), ("host", "d", "a", "https://svc"));
}

#[test]
fn session_replies() {
    assert_eq!(session_reply(true, true, Some(s("{}"))), "{}");
    assert_eq!(session_reply(true, false, Some(s("{}"))), "err");
    assert_eq!(session_reply(false, true, None), "err");
    assert_eq!(session_reply(true, true, None), "err");
    assert!(is_err_reply("err"));
    assert!(!is_err_reply("error"));
    assert!(usable_url("https://x"));
    assert!(!usable_url("  "));
    assert_eq!(login_page("/setup"), "/login?to=/setup");
}

#[test]
fn refresh_steps() {
    let a = auth();
    let start = refresh_step(&a, "/setup", RefreshEvent::Start);
    assert!(matches!(start.as_slice(), [RefreshAction::GetSession(t)] if t == "acc"));
    let none = AuthData::empty();
    let start = refresh_step(&none, "/setup", RefreshEvent::Start);
    assert!(matches!(start.as_slice(), [RefreshAction::Logout(p), RefreshAction::GetSession(t)] if p == "/login?to=/setup" && t.is_empty()));
    let ok = refresh_step(&a, "/setup", RefreshEvent::SessionReply(s("{}")));
    assert!(matches!(ok.as_slice(), [RefreshAction::Done]));
    let bad = refresh_step(&a, "/setup", RefreshEvent::SessionReply(s("err")));
    assert!(matches!(bad.as_slice(), [RefreshAction::RefreshToken(t)] if t == "ref"));
    let stored = refresh_step(&a, "/x", RefreshEvent::TokenReply(s("{\"did\":1}")));
    assert!(matches!(stored.as_slice(), [RefreshAction::Store { host, reply }] if host == "bsky.social" && reply == "{\"did\":1}"));
    let failed = refresh_step(&a, "/x", RefreshEvent::TokenReply(s("err")));
    assert!(matches!(failed.as_slice(), [RefreshAction::Logout(p), RefreshAction::Store { .. }] if p == "/login?to=/x"));
}

#[test]
fn resolved_service_is_first_endpoint() {
    let r = ResolveRes { service: vec![ResolveService { serviceEndpoint: s("https://a") }, ResolveService { serviceEndpoint: s("https://b") }] };
    assert_eq!(resolved_service(&r).service, "https://a");
    assert_eq!(resolved_service(&ResolveRes { service: vec![] }).service, "");
}

#[test]
fn put_request_fills_defaults() {
    let data = AtPageValue {
        kind: s(""),
        links: vec![LinkEntry { url: s("https://x"), name: s("X"), order: 0, createdAt: 0, description: None, icon: None, style: None }],
        services: vec![s("pinksea")],
        title: None,
        description: Some(s("hi")),
        style: None,
        script: Some(s("js")),
    };
    let r = put_record_request(&auth(), data);
    assert_eq!(r.url, "https://pds.example/xrpc/com.atproto.repo.putRecord");
    assert_eq!(r.authorization, "Bearer acc");
    assert_eq!(r.body.repo, "did:plc:abc");
    assert_eq!(r.body.collection, "one.atpage.page");
    assert_eq!(r.body.rkey, "self");
    assert!(!r.body.validate);
    assert_eq!(r.body.record.kind, "one.atpage.page");
    assert_eq!(r.body.record.title, "");
    assert_eq!(r.body.record.description, "hi");
    assert_eq!(r.body.record.script, "js");
    assert_eq!(r.body.record.links.len(), 1);
    assert_eq!(r.body.record.services, vec![s("pinksea")]);
}

#[test]
fn whitewind_records_time_in_seconds() {
    let list = WndListResp {
        records: vec![WndResp {
            uri: s("at://did:w/com.whtwnd.blog.entry/rk1"),
            cid: s("c"),
            value: WndValue { kind: s("t"), title: s("T"), content: s("C"), createdAt: s("2024-01-01T00:00:00Z"), visibility: None },
        }],
        cursor: Some(s("cur")),
    };
    let (recs, cur) = wnd_records(list);
    assert_eq!(cur, Some(s("cur")));
    assert_eq!(recs.len(), 1);
    assert_eq!(recs[0].link, "https://whtwnd.com/did:w/rk1");
    assert_eq!(recs[0].kind, "whitewind");
    assert_eq!(recs[0].timestamp, 1704067200);
}

fn drawing(rkey: &str, nsfw: bool) -> PinkSeaResp {
    PinkSeaResp {
        uri: format!("at://did:p/com.shinolabs.pinksea.oekaki/{rkey}"),
        cid: s("c"),
        value: PinkSeaValue {
            kind: s("t"),
            image: PinkSeaImage { blob: PinkSeaBlob { linkref: PinkSeaBlobLink { link: s("bafy") } } },
            nsfw,
            createdAt: s("2024-01-01T00:00:10Z"),
        },
    }
}

#[test]
fn pinksea_skips_nsfw() {
    let (recs, cur) = pinksea_records(PinkSeaListResp { records: vec![drawing("a", false), drawing("b", true), drawing("c", false)], cursor: None });
    assert!(cur.is_none());
    assert_eq!(recs.len(), 2);
    assert_eq!(recs[0].link, "https://pinksea.art/did:p/oekaki/a");
    assert_eq!(recs[1].link, "https://pinksea.art/did:p/oekaki/c");
    assert_eq!(recs[0].images, vec![s("https://harbor.pinksea.art/did:p/bafy")]);
    assert_eq!(recs[0].timestamp, 1704067210);
}

fn entry(vis: &str, cover: &str, id: i64) -> EntryResp {
    EntryResp {
        uri: s("u"),
        cid: s("c"),
        value: EntryValue { typ: s("t"), title: s("T"), cover: s(cover), content: s("C"), visibility: s(vis), id, createdAt: 1, updatedAt: 99 },
    }
}

#[test]
fn ruthub_shows_public_entries() {
    let (recs, _) = ruthub_records("did:r", EntryListResp { records: vec![entry("public", " ", 7), entry("private", "x", 8), entry("public", "img", -3)], cursor: None });
    assert_eq!(recs.len(), 2);
    assert_eq!(recs[0].link, "https://ruthub.com/p/did:r/7");
    assert!(recs[0].images.is_empty());
    assert_eq!(recs[1].link, "https://ruthub.com/p/did:r/-3");
    assert_eq!(recs[1].images, vec![s("img")]);
    assert_eq!(recs[1].timestamp, 99);
}

#[test]
fn smokesignal_schedule_and_record() {
    assert_eq!(schedule(&None, &Some(s("2024-01-01T00:00:00Z"))), "");
    assert_eq!(schedule(&Some(s("  ")), &None), "");
    assert_eq!(schedule(&Some(s("2024-01-01T10:30:00Z")), &None), "01 Jan 2024 Mon 10:30");
    assert_eq!(
        schedule(&Some(s("2024-01-01T10:30:00Z")), &Some(s("2024-01-02T11:00:00Z"))),
        "01 Jan 2024 Mon 10:30 - 02 Jan 2024 Tue 11:00 UTC"
    );
    let e = SmokeSignalResp {
        uri: s("at://did:s/events.smokesignal.calendar.event/ev1"),
        cid: s("c"),
        value: SmokeSignalValue { kind: s("t"), name: s("Meetup"), text: None, startsAt: None, endsAt: None, createdAt: s("2024-01-01T00:00:00Z") },
    };
    let r = smokesignal_record(&e);
    assert_eq!(r.title, "Event - Meetup");
    assert_eq!(r.link, "https://smokesignal.events/did:s/ev1");
    assert_eq!(r.content, " \n\n Meetup");
}

#[test]
fn recipe_images_as_markdown() {
    let img = |alt: &str, l: &str| RecipeImage { alt: s(alt), image: RecipeBlob { kind: s("blob"), imgref: RecipeImgLink { link: s(l) } } };
    let e = RecipeResp {
        uri: s("at://did:c/exchange.recipe.recipe/r1"),
        cid: s("c"),
        value: RecipeValue { kind: s("t"), name: s("Soup"), text: s("Boil."), updatedAt: s("2024-01-01T00:00:00Z"), embed: Some(RecipeEmbed { kind: s("e"), images: vec![img("a", "L1"), img("b", "L2")] }) },
    };
    let r = recipe_record(&e);
    assert_eq!(r.link, "https://recipe.exchange/recipes/r1");
    assert_eq!(
        r.content,
        "![a](https://cdn.bsky.app/img/feed_thumbnail/plain/did:c/L1)  ![b](https://cdn.bsky.app/img/feed_thumbnail/plain/did:c/L2)   Boil."
    );
}

#[test]
fn popfeed_stars() {
    assert_eq!(rating_stars(0), "");
    assert_eq!(rating_stars(7), "\u{2B50}\u{2B50}\u{2B50}");
    assert_eq!(rating_stars(100), "\u{2B50}".repeat(5));
    let e = ReviewResp {
        uri: s("at://did:f/social.popfeed.feed.review/x"),
        cid: s("c"),
        value: ReviewValue { typ: s("t"), title: s("Dune"), text: s("Great"), containsSpoilers: false, createdAt: s("2024-01-01T00:00:00Z"), creativeWorkType: s("book"), rating: 4 },
    };
    let r = review_record(&e);
    assert_eq!(r.title, "Review: Dune [book] \u{2B50}\u{2B50}");
    assert_eq!(r.link, "https://popfeed.social/review/at://did:f/social.popfeed.feed.review/x");
}

#[test]
fn nooki_links_are_slugs_of_titles() {
    assert_eq!(bleach_slug("Hello-World! é"), "Hello World ");
    let e = PostResp {
        uri: s("u"),
        cid: s("c"),
        value: PostValue { typ: s("t"), title: s("Rust's new-ish Features!"), content: s("C"), createdAt: s("x"), communityUrl: s(""), communityName: s("") },
    };
    assert_eq!(post_record(&e).link, "https://nooki.me/post/rusts-new-ish-features");
}

fn vote(uri: &str) -> VoteResp {
    VoteResp { uri: s("v"), cid: s("c"), value: VoteValue { typ: s("t"), subject: PostSub { uri: s(uri), cid: s("c") }, createdAt: s("2024-01-01T00:00:00Z") } }
}

#[test]
fn frontpage_votes() {
    match vote_subject("did:me", "https://me", &vote("at://did:me/fyi.unravel.frontpage.post/p1")) {
        VoteSubject::Post(t) => {
            assert_eq!((t.repo.as_str(), t.rkey.as_str()), ("did:me", "p1"));
            assert!(matches!(t.service, ServiceAt::Known(ref x) if x == "https://me"));
        }
        _ => panic!("expected a post"),
    }
    assert!(matches!(vote_subject("did:me", "https://me", &vote("at://did:o/fyi.unravel.frontpage.comment/c1")), VoteSubject::Comment(_)));
    assert!(matches!(vote_subject("did:me", "https://me", &vote("at://did:o/other/c1")), VoteSubject::Other));
    let v = vote("at://did:o/fyi.unravel.frontpage.post/p1");
    assert_eq!(post_vote_record(&v, None).title, "Vote on Post: link to post");
    let fp = FrontpageValue { kind: s("t"), title: s("News"), url: s("https://n"), createdAt: s("x") };
    assert_eq!(post_vote_record(&v, Some(fp)).link, "https://frontpage.fyi/post/did:o/p1");
    let cv = vote("at://did:s/fyi.unravel.frontpage.comment/c1");
    let cmt = CommentValue { typ: s("t"), content: s("nice"), post: PostSub { uri: s("at://did:p/fyi.unravel.frontpage.post/p9"), cid: s("c") }, createdAt: s("x") };
    let t = comment_vote_post("did:me", "https://me", &cv, &cmt);
    assert!(matches!(t.service, ServiceAt::Resolve(ref d) if d == "did:s"));
    assert_eq!((t.repo.as_str(), t.rkey.as_str()), ("did:p", "p9"));
    let r = comment_vote_record(&cv, cmt, None);
    assert_eq!(r.title, "Vote on Comment: link to post");
    assert_eq!(r.content, "nice");
    assert_eq!(r.link, "https://frontpage.fyi/post/did:p/p9");
}

#[test]
fn leaflet_base_paths() {
    let doc = LeafResp {
        uri: s("at://did:l/site.standard.document/d1"),
        cid: s("c"),
        value: LeafValue { kind: s("t"), title: s("T"), description: None, site: s("at://did:l/site.standard.publication/p1"), publishedAt: s("2024-01-01T00:00:00Z") },
    };
    let mut paths = BasePaths::new();
    match base_path_for(&paths, "https://me", &doc) {
        Err(t) => {
            assert_eq!((t.repo.as_str(), t.rkey.as_str(), t.collection.as_str()), ("did:l", "p1", "site.standard.publication"));
            assert!(matches!(t.service, ServiceAt::Known(ref x) if x == "https://me"));
        }
        Ok(_) => panic!("nothing remembered yet"),
    }
    paths.insert(s("at://did:l/site.standard.publication/p1"), s("blog.example"));
    assert!(matches!(base_path_for(&paths, "https://me", &doc), Ok(ref b) if b == "blog.example"));
    assert_eq!(paths.get("other"), None);
    assert_eq!(document_record(&doc, "blog.example").link, "https://blog.example/d1");
    assert_eq!(document_record(&doc, "https://blog.example").link, "https://blog.example/d1");
}

fn like(ty: &str, uri: &str) -> LikeResp {
    LikeResp {
        uri: s("at://did:f/social.popfeed.feed.like/l"),
        cid: s("c"),
        value: LikeValue { typ: s("t"), createdAt: s("2024-01-01T00:00:00Z"), subjectUri: s(uri), subjectType: s(ty) },
    }
}

fn list_value(name: &str) -> ListValue {
    ListValue { typ: s("t"), name: s(name), createdAt: s("2024-01-01T00:00:00Z"), listType: s("l"), description: s("D") }
}

fn list_item(title: &str) -> ListItemResp {
    ListItemResp {
        uri: s("at://did:f/social.popfeed.feed.listItem/i"),
        cid: s("c"),
        value: ListItemValue {
            typ: s("t"),
            addedAt: s("2024-01-02T00:00:00Z"),
            listUri: s("at://did:f/social.popfeed.list/L1"),
            creativeWorkType: s("movie"),
            title: Some(s(title)),
            listType: None,
            posterUrl: None,
            backdropUrl: None,
            description: None,
        },
    }
}

#[test]
fn popfeed_liked_record_needs_matching_subject() {
    let l = like("list", "at://did:f/social.popfeed.list/L1");
    let r = liked_record(&l, Some(LikedValue::List(list_value("Faves")))).unwrap();
    assert_eq!(r.title, "Like list: Faves");
    assert_eq!(r.content, "D");
    assert_eq!(r.link, "https://popfeed.social/list/at://did:f/social.popfeed.list/L1");
    assert_eq!(r.timestamp, 1704067200);
    assert!(liked_record(&l, None).is_none());
    let rv = ReviewValue { typ: s("t"), title: s("Dune"), text: s("Great"), containsSpoilers: false, createdAt: s("x"), creativeWorkType: s("book"), rating: 4 };
    assert!(liked_record(&l, Some(LikedValue::Review(rv))).is_none());
    assert!(liked_record(&like("post", "at://x/y/z"), Some(LikedValue::List(list_value("Faves")))).is_none());
}

#[test]
fn popfeed_feed_groups_in_order_and_skips_unread() {
    let review = ReviewResp {
        uri: s("at://did:f/social.popfeed.feed.review/x"),
        cid: s("c"),
        value: ReviewValue { typ: s("t"), title: s("Dune"), text: s("Great"), containsSpoilers: false, createdAt: s("2024-01-01T00:00:00Z"), creativeWorkType: s("book"), rating: 4 },
    };
    let note = NoteResp {
        uri: s("at://did:f/social.popfeed.feed.note/n"),
        cid: s("c"),
        value: NoteValue {
            typ: s("t"), title: s("Alien"), text: s("Scary"), posterUrl: s(""), backdropUrl: s(""),
            createdAt: s("2024-01-01T00:00:00Z"), releaseDate: s(""), creativeWorkType: s("movie"),
        },
    };
    let reviews = ReviewsResp { records: vec![review], cursor: Some(s("r")) };
    let notes = NotesResp { records: vec![note], cursor: Some(s("n")) };
    let likes = vec![
        (like("list", "at://did:f/social.popfeed.list/L1"), None),
        (like("list", "at://did:f/social.popfeed.list/L2"), Some(LikedValue::List(list_value("Faves")))),
    ];
    let items = vec![(list_item("Heat"), Some(list_value("Crime"))), (list_item("Up"), None)];
    let (recs, cursor) = popfeed_feed(Some(reviews), Some(notes), likes, items);
    assert_eq!(cursor, None);
    let titles: Vec<&str> = recs.iter().map(|r| r.title.as_str()).collect();
    assert_eq!(
        titles,
        vec!["Review: Dune [book] \u{2B50}\u{2B50}", "Note on Alien", "Like list: Faves", "Add [movie] Heat to list: Crime"]
    );
    let (none, _) = popfeed_feed(None, None, Vec::new(), Vec::new());
    assert!(none.is_empty());
}

fn leaf_doc(rkey: &str) -> LeafResp {
    LeafResp {
        uri: format!("at://did:l/site.standard.document/{rkey}"),
        cid: s("c"),
        value: LeafValue { kind: s("t"), title: s(rkey), description: None, site: s("at://did:l/site.standard.publication/p1"), publishedAt: s("2024-01-01T00:00:00Z") },
    }
}

#[test]
fn leaflet_read_publication_is_remembered() {
    let doc = leaf_doc("d1");
    let mut paths = BasePaths::new();
    assert_eq!(base_after_read(&mut paths, &doc, None), None);
    assert_eq!(paths.get("at://did:l/site.standard.publication/p1"), None);
    let publ = PublicationValue { kind: s("t"), name: s("Blog"), url: s("blog.example"), description: None };
    assert_eq!(base_after_read(&mut paths, &doc, Some(publ)), Some(s("blog.example")));
    assert_eq!(paths.get("at://did:l/site.standard.publication/p1"), Some(s("blog.example")));
    assert!(matches!(base_path_for(&paths, "https://me", &doc), Ok(ref b) if b == "blog.example"));
}

#[test]
fn leaflet_feed_skips_unread_publications_and_keeps_cursor() {
    let list = LeafListResp { records: vec![leaf_doc("d1"), leaf_doc("d2"), leaf_doc("d3")], cursor: Some(s("next")) };
    let (recs, cursor) = leaflet_feed(Some(list), vec![Some(s("blog.example")), None, Some(s("https://b.example"))]);
    assert_eq!(cursor, Some(s("next")));
    assert_eq!(recs.len(), 2);
    assert_eq!(recs[0].link, "https://blog.example/d1");
    assert_eq!(recs[1].link, "https://b.example/d3");
    assert_eq!(recs[1].title, "d3");
    let (none, cursor) = leaflet_feed(None, Vec::new());
    assert!(none.is_empty());
    assert_eq!(cursor, None);
}

fn gallery(title: &str) -> GalleryValue {
    GalleryValue { kind: s("t"), title: s(title), description: None, createdAt: s("2024-01-03T00:00:00Z") }
}

fn fav(subject: &str) -> FavResp {
    FavResp { uri: s("at://did:g/social.grain.favorite/f"), cid: s("c"), value: FavValue { kind: s("t"), subject: s(subject), createdAt: s("x") } }
}

#[test]
fn grain_favorites_need_a_read_gallery() {
    let f = fav("at://did:o/social.grain.gallery/g1");
    let r = favorite_after_read(&f, Some(gallery("Trip"))).unwrap();
    assert_eq!(r.title, "Favorited Gallery: Trip");
    assert_eq!(r.link, "https://grain.social/profile/did:o/gallery/g1");
    assert_eq!(r.timestamp, 1704240000);
    assert!(favorite_after_read(&f, None).is_none());
    assert!(favorite_after_read(&fav("at://did:o/other/g1"), Some(gallery("Trip"))).is_none());
}

#[test]
fn grain_feed_galleries_then_favorites() {
    let list = GalleryListResp {
        records: vec![GalleryResp { uri: s("at://did:g/social.grain.gallery/g0"), cid: s("c"), value: gallery("Mine") }],
        cursor: Some(s("c1")),
    };
    let favs = vec![
        (fav("at://did:o/social.grain.gallery/g1"), None),
        (fav("at://did:o/social.grain.gallery/g2"), Some(gallery("Theirs"))),
    ];
    let (recs, cursor) = grain_feed(Some(list), favs);
    assert_eq!(cursor, None);
    assert_eq!(recs.len(), 2);
    assert_eq!(recs[0].link, "https://grain.social/profile/did:g/gallery/g0");
    assert_eq!(recs[1].title, "Favorited Gallery: Theirs");
    assert_eq!(recs[1].link, "https://grain.social/profile/did:o/gallery/g2");
}

#[test]
fn nooki_feed_posts_comments_upvotes() {
    let post = || PostValue { typ: s("t"), title: s("Hello"), content: s("C"), createdAt: s("x"), communityUrl: s(""), communityName: s("") };
    let posts = PostsResp { records: vec![PostResp { uri: s("u"), cid: s("c"), value: post() }], cursor: Some(s("p")) };
    let comment = CommentResp {
        uri: s("cu"),
        cid: s("c"),
        value: NookiCommentValue { typ: s("t"), content: s("hi"), postUri: s("at://did:n/community.nooki.posts/p"), createdAt: s("x"), parentUri: s("") },
    };
    let upvote = UpvoteResp { uri: s("uu"), cid: s("c"), value: UpvoteValue { typ: s("t"), postUri: s("at://did:n/community.nooki.posts/q"), createdAt: s("x") } };
    let (recs, cursor) = nooki_feed(Some(posts), vec![(comment, None)], vec![(upvote, Some(post()))]);
    assert_eq!(cursor, None);
    let titles: Vec<&str> = recs.iter().map(|r| r.title.as_str()).collect();
    assert_eq!(titles, vec!["Hello", "Comment on at://did:n/community.nooki.posts/p", "Upvote: Hello"]);
    assert_eq!(recs[2].link, "https://nooki.me/post/hello");
}

#[test]
fn frontpage_feed_skips_unread_votes() {
    let fp = || FrontpageValue { kind: s("t"), title: s("News"), url: s("https://n"), createdAt: s("x") };
    let posts = FrontpageListResp {
        records: vec![FrontpageResp { uri: s("at://did:me/fyi.unravel.frontpage.post/p0"), cid: s("c"), value: fp() }],
        cursor: Some(s("c")),
    };
    let comment = FpCommentResp {
        uri: s("at://did:me/fyi.unravel.frontpage.comment/c0"),
        cid: s("c"),
        value: CommentValue { typ: s("t"), content: s("nice"), post: PostSub { uri: s("at://did:o/fyi.unravel.frontpage.post/p1"), cid: s("c") }, createdAt: s("x") },
    };
    let cmt = CommentValue { typ: s("t"), content: s("reply"), post: PostSub { uri: s("at://did:p/fyi.unravel.frontpage.post/p9"), cid: s("c") }, createdAt: s("x") };
    let votes = vec![
        (vote("at://did:o/fyi.unravel.frontpage.post/p1"), Some(VoteRead::Post(None))),
        (vote("at://did:o/fyi.unravel.frontpage.comment/c1"), None),
        (vote("at://did:o/other/x"), Some(VoteRead::Post(Some(fp())))),
        (vote("at://did:o/fyi.unravel.frontpage.comment/c2"), Some(VoteRead::Comment(cmt, Some(fp())))),
    ];
    let (recs, cursor) = frontpage_feed(Some(posts), vec![(comment, None)], votes);
    assert_eq!(cursor, None);
    let titles: Vec<&str> = recs.iter().map(|r| r.title.as_str()).collect();
    assert_eq!(titles, vec!["News", "Comment on: ", "Vote on Post: link to post", "Vote on Comment: News"]);
    assert_eq!(recs[3].link, "https://frontpage.fyi/post/did:p/p9");
    assert!(vote_after_read(&vote("at://did:o/fyi.unravel.frontpage.comment/c1"), Some(VoteRead::Post(None))).is_none());
}
