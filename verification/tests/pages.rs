use atpage::pages::atpage::{
    display_name, join_label, link_card, page_script, page_share_text, page_style, page_title, profile_link,
    rec_card, share_url, ShareTarget, DEFAULT_STYLE,
};
use atpage::pages::auth::{login_host, login_redirect};
use atpage::pages::home::{new_link, new_page, page_path, remove_link, set_service, upsert_link, view_path, AT_SERVICES, LINK_STYLE};
use atpage::pages::tpage::{all_records, all_sources};
use atpage::resources::atpage::{AtRecord, LinkEntry, RecordSource};
use atpage::resources::auth::ProfileRes;

fn s(x: &str) -> String {
    x.to_string()
}

fn link(url: &str, name: &str) -> LinkEntry {
    LinkEntry { url: s(url), name: s(name), order: 0, createdAt: 0, description: None, icon: None, style: None }
}

fn profile(name: Option<&str>) -> ProfileRes {
    ProfileRes { did: s("did:a"), handle: s("alice.test"), displayName: name.map(s), avatar: Some(s("https://av")), description: None }
}

#[test]
fn page_titles() {
    assert_eq!(page_title("alice.test"), Some(s("alice.test | atpage")));
    assert_eq!(page_title("  "), None);
}

#[test]
fn page_styles_and_scripts() {
    assert_eq!(page_style(Some(s("https://x/a.css"))), (true, s("https://x/a.css")));
    assert_eq!(page_style(Some(s("body{}"))), (false, s("body{}")));
    assert_eq!(page_style(Some(s(" "))), (false, s(DEFAULT_STYLE)));
    assert_eq!(page_style(None), (false, s(DEFAULT_STYLE)));
    assert!(DEFAULT_STYLE.starts_with("\n\tbody {"));
    assert_eq!(page_script(Some(s("https://x/a.js"))), (true, s("https://x/a.js")));
    assert_eq!(page_script(Some(s("alert(1)"))), (false, s("alert(1)")));
    assert_eq!(page_script(None), (false, s("")));
}

#[test]
fn profile_names() {
    assert_eq!(display_name(&profile(Some("Alice"))), "Alice");
    assert_eq!(display_name(&profile(Some(" "))), "alice.test");
    assert_eq!(display_name(&profile(None)), "alice.test");
    assert_eq!(join_label(&profile(None)), "Join alice.test on ATPage");
    assert_eq!(profile_link("alice.test"), "https://bsky.app/profile/alice.test");
    assert_eq!(page_share_text("alice.test"), "https://atpage.one/alice.test");
}

#[test]
fn share_urls() {
    assert_eq!(share_url(ShareTarget::Bluesky, "t"), "https://bsky.app/intent/compose?text=t");
    assert_eq!(share_url(ShareTarget::LinkedIn, "t"), "https://www.linkedin.com/sharing/share-offsite/?url=t");
    assert_eq!(share_url(ShareTarget::Facebook, "t"), "https://www.facebook.com/sharer.php?u=t");
    assert_eq!(share_url(ShareTarget::Twitter, "t"), "https://x.com/intent/tweet?text=t");
}

#[test]
fn link_cards() {
    let c = link_card(&link("https://www.github.com/me", "My Code"));
    assert!(!c.styled);
    assert_eq!(c.icon, "https://icons.duckduckgo.com/ip3/github.com.ico");
    assert_eq!(c.cname, "MyCode");
    assert_eq!(c.plain_link_class, "link link-hover at-link at-link-MyCode");
    let mut l = link("https://x", "X");
    l.style = Some(s("color: red"));
    l.icon = Some(s("https://icon"));
    l.description = Some(s("about"));
    let c = link_card(&l);
    assert!(c.styled);
    assert_eq!(c.style, "color: red");
    assert_eq!(c.icon, "https://icon");
    assert_eq!(c.description, "about");
    assert_eq!(c.card_class, "w-full flex gap-2 at-link-card at-link-card-X");
}

#[test]
fn record_cards() {
    let r = AtRecord { kind: s("pink sea"), title: s("T"), link: s("L"), content: s(""), images: vec![], timestamp: 0 };
    let v = rec_card(&r, &profile(Some("Alice")));
    assert_eq!(v.kd, "pinksea");
    assert_eq!(v.kind_label, "@pinksea");
    assert_eq!(v.date, "01 Jan 1970 Thu 00:00");
    assert_eq!(v.name, "Alice");
    assert_eq!(v.avatar, "https://av");
    assert_eq!(v.card_class, "w-full p-2 at-card at-card-pinksea");
}

#[test]
fn home_paths() {
    assert_eq!(view_path(""), "/atpage.one");
    assert_eq!(view_path("bob"), "/bob");
    assert_eq!(page_path("bob"), "/bob");
    assert_eq!(AT_SERVICES.len(), 7);
    assert_eq!(AT_SERVICES[0], ("frontpage", "Link aggregator", "https://frontpage.fyi"));
    assert!(LINK_STYLE.starts_with("padding: 10px 18px;"));
}

#[test]
fn service_boxes() {
    let mut v = vec![s("pinksea"), s("ruthub"), s("pinksea")];
    set_service(&mut v, "ruthub", true);
    assert_eq!(v, vec![s("pinksea"), s("ruthub"), s("pinksea")]);
    set_service(&mut v, "grain", true);
    assert_eq!(v, vec![s("pinksea"), s("ruthub"), s("pinksea"), s("grain")]);
    set_service(&mut v, "pinksea", false);
    assert_eq!(v, vec![s("ruthub"), s("grain")]);
    set_service(&mut v, "pinksea", false);
    assert_eq!(v, vec![s("ruthub"), s("grain")]);
}

#[test]
fn link_edits() {
    let mut links = vec![link("https://a", "A"), link("https://b", "B"), link("https://a", "A2")];
    upsert_link(&mut links, link("https://a", "A3"));
    let names: Vec<&str> = links.iter().map(|l| l.name.as_str()).collect();
    assert_eq!(names, vec!["B", "A3"]);
    remove_link(&mut links, "https://b");
    let names: Vec<&str> = links.iter().map(|l| l.name.as_str()).collect();
    assert_eq!(names, vec!["A3"]);
    let l = new_link(s("https://z"), s("Z"), None, None, Some(s("i")));
    assert_eq!((l.order, l.createdAt, l.icon.as_deref()), (0, 0, Some("i")));
    let p = new_page(vec![s("pinksea")], vec![l], None, Some(s("d")), None, None);
    assert_eq!(p.kind, "");
    assert_eq!(p.links.len(), 1);
}

#[test]
fn login_defaults() {
    assert_eq!(login_redirect(None), "/");
    assert_eq!(login_redirect(Some(s("/setup"))), "/setup");
    assert_eq!(login_host(None), "bsky.social");
    assert_eq!(login_host(Some(s("pds.example"))), "pds.example");
}

#[test]
fn test_page_reads_every_source() {
    assert_eq!(all_sources(), vec![
        RecordSource::Frontpage, RecordSource::Whitewind, RecordSource::Pinksea, RecordSource::Ruthub,
        RecordSource::Smokesignal, RecordSource::Grain, RecordSource::Recipe, RecordSource::Leaflet,
    ]);
    let r = all_records(vec![vec![AtRecord { kind: s("k"), title: s("x"), link: s(""), content: s(""), images: vec![], timestamp: 5 }]]);
    assert_eq!(r.records.len(), 1);
}
