use atpage::helper::md::{md2html, middles_safe};
use atpage::helper::url::{get_url, BaseUrl};
use atpage::helper::utils::{get_host, get_ico, get_service_icon, millis_to_secs, str_to_secs, str_to_timestamp, ts_to_dt};
use atpage::resources::auth::AuthData;
use atpage::text::{int_text, join, replace, split_on, is_blank};

fn auth() -> AuthData {
    AuthData {
        host: "bsky.social".to_string(),
        did: "did:plc:abc".to_string(),
        handle: "alice.bsky.social".to_string(),
        access: "acc".to_string(),
        refresh: "ref".to_string(),
        service: "https://pds.example".to_string(),
    }
}

#[test]
fn host_strips_scheme_and_www() {
    assert_eq!(get_host("https://www.example.com/a/b"), "example.com");
    assert_eq!(get_host("http://foo.org"), "foo.org");
    assert_eq!(get_host("bar/baz"), "bar");
    assert_eq!(get_host(""), "");
}

#[test]
fn ico_of_host() {
    assert_eq!(get_ico("https://www.rust-lang.org/learn"), "https://icons.duckduckgo.com/ip3/rust-lang.org.ico");
}

#[test]
fn service_icons_by_lowercase_name() {
    assert_eq!(get_service_icon("FrontPage"), "https://frontpage.fyi/frontpage-logo.svg");
    assert_eq!(get_service_icon("whitewind"), "https://icons.duckduckgo.com/ip3/whtwnd.com.ico");
    assert_eq!(get_service_icon("grain"), "https://ui-avatars.com/api/?name=grain&background=random&color=fff");
    assert_eq!(get_service_icon("My Blog"), "https://ui-avatars.com/api/?name=My Blog&background=random&color=fff");
}

#[test]
fn service_icon_ignores_letter_case() {
    assert_eq!(get_service_icon("WhiteWind"), get_service_icon("whitewind"));
    assert_eq!(get_service_icon("WhiteWind"), "https://icons.duckduckgo.com/ip3/whtwnd.com.ico");
    assert_eq!(get_service_icon("RUTHUB"), get_service_icon("ruthub"));
    assert_eq!(get_service_icon("RUTHUB"), "https://ruthub.com/favicon.svg");
    assert_eq!(get_service_icon("SmokeSignal"), get_service_icon("smokesignal"));
}

#[test]
fn timestamps_parse_rfc3339() {
    assert_eq!(str_to_timestamp("2024-01-01T00:00:00Z"), 1704067200000);
    assert_eq!(str_to_timestamp("2024-01-01T00:00:01.500+00:00"), 1704067201500);
    assert_eq!(str_to_secs("2024-01-01T00:00:01.500Z"), 1704067201);
    assert_eq!(str_to_secs("1969-12-31T23:59:59.500Z"), 0);
    assert_eq!(millis_to_secs(-1500), -1);
}

#[test]
fn dates_are_formatted() {
    assert_eq!(ts_to_dt(0), "01 Jan 1970 Thu 00:00");
    assert_eq!(ts_to_dt(1704067200), "01 Jan 2024 Mon 00:00");
}

#[test]
fn urls_need_a_session() {
    let a = auth();
    assert_eq!(get_url(&a, "session_get"), "https://bsky.social/xrpc/com.atproto.server.getSession");
    assert_eq!(get_url(&a, "session_refresh"), "https://bsky.social/xrpc/com.atproto.server.refreshSession");
    assert_eq!(get_url(&a, "other"), "");
    let mut b = auth();
    b.refresh = String::new();
    assert_eq!(get_url(&b, "session_get"), "");
    let base = BaseUrl::default();
    assert_eq!(base.session_get, "com.atproto.server.getSession");
    assert_eq!(base.session_refresh, "com.atproto.server.refreshSession");
}

#[test]
fn text_helpers() {
    assert_eq!(int_text(0), "0");
    assert_eq!(int_text(1234567), "1234567");
    assert_eq!(int_text(-42), "-42");
    assert_eq!(int_text(i64::MIN), "-9223372036854775808");
    assert_eq!(replace("a--b-c", "-", " "), "a  b c");
    assert_eq!(replace("aaa", "aa", "b"), "ba");
    assert_eq!(split_on("at://x/y", '/'), vec!["at:", "", "x", "y"]);
    assert_eq!(join(&vec!["a".to_string(), "b".to_string()], ", "), "a, b");
    assert!(is_blank(" \t\n\u{3000}"));
    assert!(!is_blank(" x "));
}

#[test]
fn markdown_heading_gets_anchor() {
    assert_eq!(md2html("# Hello World").html, r#"<h1 id="hello-world" class="anchor " style="">Hello World</h1>"#);
    assert_eq!(
        md2html("## Title {#top .big}").html,
        r#"<h2 id="top" class="anchor big" style="">Title</h2>"#
    );
    assert_eq!(
        md2html("# A `b` c").html,
        r#"<h1 id="a-b-c" class="anchor " style="">A <code>b</code> c</h1>"#
    );
}

#[test]
fn markdown_code_block_is_labelled() {
    assert_eq!(
        md2html("```rust\nfn x() {}\n```").html,
        "<div class=\"code-block\"><div class=\"language-tag\">rust</div><pre class=\"code-block-inner\" data-lang=\"rust\">fn x() {}\n</pre></div>"
    );
    assert_eq!(
        md2html("```\nplain\n```").html,
        "<div class=\"code-block\"><pre class=\"code-block-inner\" data-lang=\"\">plain\n</pre></div>"
    );
}

#[test]
fn markdown_math_becomes_mathml() {
    let out = md2html("$x$").html;
    assert!(out.starts_with("<p><math xmlns=\"http://www.w3.org/1998/Math/MathML\" display=\"inline\">"));
    assert!(out.contains("</math>"));
    let block = md2html("$$x$$").html;
    assert!(block.contains("display=\"block\""));
}

#[test]
fn markdown_plain_paragraph() {
    assert_eq!(md2html("hello *world*").html, "<p>hello <em>world</em></p>\n");
    assert_eq!(md2html("> # quoted").html, "<blockquote>\n<h1>quoted</h1>\n</blockquote>\n");
}

#[test]
fn middle_needs_a_delimiter() {
    assert!(middles_safe(r"x + y"));
    assert!(middles_safe(r"\left( a \middle| b \right)"));
    assert!(middles_safe(r"\middle \| x"));
    assert!(middles_safe(r"\middlex"));
    assert!(!middles_safe(r"\middle a"));
    assert!(!middles_safe(r"\middle"));
    assert!(!middles_safe(r"\middle |'"));
    let bad = md2html(r"$\middle a$").html;
    assert!(bad.contains(r"Render math \middle a failed: \middle is not followed by a delimiter"));
    let good = md2html(r"$\left( a \middle| b \right)$").html;
    assert!(good.contains("<math xmlns=\"http://www.w3.org/1998/Math/MathML\" display=\"inline\">"));
    assert!(!good.contains("failed"));
}

#[test]
fn times_at_the_ends_of_chrono_range() {
    let first = ts_to_dt(-8_334_601_228_800);
    assert!(first.starts_with("01 Jan -262143 "));
    assert!(first.ends_with(" 00:00"));
    let last = ts_to_dt(8_210_266_876_799);
    assert!(last.starts_with("31 Dec +262142 "));
    assert!(last.ends_with(" 23:59"));
    assert!(!ts_to_dt(8_210_266_876_800).contains("262143"));
    assert!(!ts_to_dt(-8_334_601_228_801).contains("262144"));
}
