//! Times, hosts and icons.
use vstd::prelude::*;
use vstd::string::StringExecFns;

use crate::text::{replace, replace_all, split, split_on, str_eq, views};

verus! {

/// What chrono's `str::parse::<DateTime<Utc>>` makes of `s` (a relaxed form
/// of RFC 3339), as milliseconds since the Unix epoch, or `None` where it
/// refuses `s`.
pub uninterp spec fn rfc3339_millis(s: Seq<char>) -> Option<i64>;

/// How chrono writes the UTC time `secs` seconds after the Unix epoch with the
/// pattern `%d %b %Y %a %H:%M`.
pub uninterp spec fn utc_text(secs: i64) -> Seq<char>;

/// chrono: `s.parse::<DateTime<Utc>>()` and `DateTime::timestamp_millis`.
/// The result is what the name `rfc3339_millis` gives for `s`.
#[verifier::external_body]
fn parse_utc_millis(s: &str) -> (r: Option<i64>)
    ensures
        r == rfc3339_millis(s@),
{
    s.parse::<chrono::DateTime<chrono::Utc>>().ok().map(|d| d.timestamp_millis())
}

/// chrono: `Utc::now().timestamp_millis()`, the clock. Nothing is promised of it.
#[verifier::external_body]
fn now_millis() -> i64 {
    chrono::Utc::now().timestamp_millis()
}

/// chrono's dates reach from January 1 of year -262143 to December 31 of
/// year 262142: `secs` seconds after the Unix epoch lies in that range.
pub open spec fn in_chrono_range(secs: int) -> bool {
    -8_334_601_228_800 <= secs <= 8_210_266_876_799
}

/// chrono: `DateTime::from_timestamp(secs, 0)` written with `DateTime::format`
/// and the pattern `%d %b %Y %a %H:%M`. `from_timestamp` gives a time exactly
/// where its day lies in chrono's range of dates (`in_chrono_range`); the text
/// is what the name `utc_text` gives.
#[verifier::external_body]
fn format_utc_secs(secs: i64) -> (r: Option<String>)
    ensures
        r is Some <==> in_chrono_range(secs as int),
        r matches Some(t) ==> t@ == utc_text(secs),
{
    chrono::DateTime::from_timestamp(secs, 0).map(|d| d.format("%d %b %Y %a %H:%M").to_string())
}

/// chrono: `Utc::now()` written with the pattern `%d %b %Y %a %H:%M`; it rests
/// on the clock, and nothing is promised of it.
#[verifier::external_body]
fn format_now() -> String {
    chrono::Utc::now().format("%d %b %Y %a %H:%M").to_string()
}

/// std: `str::to_lowercase`, the Unicode lower case of `s`.
pub uninterp spec fn lowercase(s: Seq<char>) -> Seq<char>;

/// Every character is ASCII.
pub open spec fn is_ascii_text(s: Seq<char>) -> bool {
    forall|i: int| 0 <= i < s.len() ==> (#[trigger] s[i] as u32) < 128
}

/// `c` with `A`-`Z` mapped to `a`-`z`.
pub open spec fn ascii_lower_char(c: char) -> char {
    if 'A' <= c && c <= 'Z' {
        ((c as u32) + 32) as char
    } else {
        c
    }
}

/// `s` with each of `A`-`Z` mapped to `a`-`z`, every other character kept.
pub open spec fn ascii_lower(s: Seq<char>) -> Seq<char> {
    Seq::new(s.len(), |i: int| ascii_lower_char(s[i]))
}

/// std: `str::to_lowercase`; the result is what the name `lowercase` gives.
/// On ASCII text the Unicode lower case maps `A`-`Z` to `a`-`z` and keeps
/// every other character, so there the result is `ascii_lower(s)`.
#[verifier::external_body]
fn to_lowercase(s: &str) -> (r: String)
    ensures
        r@ == lowercase(s@),
        is_ascii_text(s@) ==> r@ == ascii_lower(s@),
{
    s.to_lowercase()
}

/// Rust's `ms / 1000` on `i64`: division that rounds toward zero.
pub open spec fn secs_of(ms: i64) -> int {
    if ms >= 0 {
        ms / 1000
    } else {
        -((-ms) / 1000)
    }
}

/// `r` is the number of seconds in the time `created` names, where chrono can
/// read it.
pub open spec fn stamped(r: i64, created: Seq<char>) -> bool {
    rfc3339_millis(created) matches Some(ms) ==> r == secs_of(ms)
}

/// `ms / 1000`, rounded toward zero.
pub fn millis_to_secs(ms: i64) -> (r: i64)
    ensures
        r == secs_of(ms),
{
    ms / 1000
}

/// timestamp(sec) to formated str
pub fn ts_to_dt(ts: i64) -> (r: String)
    ensures
        in_chrono_range(ts as int) ==> r@ == utc_text(ts),
{
    match format_utc_secs(ts) {
        Some(t) => t,
        None => format_now(),
    }
}

/// formatted datetime str to the number of non-leap-milliseconds
pub fn str_to_timestamp(dt: &str) -> (r: i64)
    ensures
        rfc3339_millis(dt@) matches Some(ms) ==> r == ms,
{
    match parse_utc_millis(dt) {
        Some(ms) => ms,
        None => now_millis(),
    }
}

/// The seconds of the time written in `dt` (`str_to_timestamp(dt) / 1000`).
pub fn str_to_secs(dt: &str) -> (r: i64)
    ensures
        stamped(r, dt@),
{
    millis_to_secs(str_to_timestamp(dt))
}

/// The host of a web address: `http://`, `https://` and `www.` taken out,
/// then everything from the first slash on.
pub open spec fn host_of(uri: Seq<char>) -> Seq<char> {
    let a = replace_all(uri, "http://"@, ""@);
    let b = replace_all(a, "https://"@, ""@);
    let c = replace_all(b, "www."@, ""@);
    split(c, '/')[0]
}

/// get URL's domain name
pub fn get_host(uri: &str) -> (r: String)
    ensures
        r@ == host_of(uri@),
{
    proof {
        reveal_strlit("http://");
        reveal_strlit("https://");
        reveal_strlit("www.");
    }
    let a = replace(uri, "http://", "");
    let b = replace(a.as_str(), "https://", "");
    let c = replace(b.as_str(), "www.", "");
    let parts = split_on(c.as_str(), '/');
    proof {
        crate::text::lemma_split_nonempty(c@, '/');
        assert(views(parts@)[0] == parts@[0]@);
    }
    parts[0].clone()
}

/// The DuckDuckGo icon address of a web address's host.
pub open spec fn ico_of(uri: Seq<char>) -> Seq<char> {
    "https://icons.duckduckgo.com/ip3/"@ + host_of(uri) + ".ico"@
}

/// get ico of a webpage via duckduckgo
pub fn get_ico(uri: &str) -> (r: String)
    ensures
        r@ == ico_of(uri@),
{
    let hostname = get_host(uri);
    let mut r = String::from_str("https://icons.duckduckgo.com/ip3/");
    r.append(hostname.as_str());
    r.append(".ico");
    r
}

/// The names of the services that have an icon of their own.
pub open spec fn known_service(l: Seq<char>) -> bool {
    ||| l == "frontpage"@
    ||| l == "nooki"@
    ||| l == "pinksea"@
    ||| l == "ruthub"@
    ||| l == "smokesignal"@
    ||| l == "recipe"@
    ||| l == "leaflet"@
    ||| l == "popfeed"@
    ||| l == "whitewind"@
}

/// The icon of `service` whose name in lower case is `l`: a known service's
/// own icon, else a generated avatar with the name as written.
pub open spec fn icon_for(l: Seq<char>, service: Seq<char>) -> Seq<char> {
    if l == "frontpage"@ {
        "https://frontpage.fyi/frontpage-logo.svg"@
    } else if l == "nooki"@ {
        "https://icons.duckduckgo.com/ip3/nooki.me.ico"@
    } else if l == "pinksea"@ {
        "https://icons.duckduckgo.com/ip3/pinksea.art.ico"@
    } else if l == "ruthub"@ {
        "https://ruthub.com/favicon.svg"@
    } else if l == "smokesignal"@ {
        "https://icons.duckduckgo.com/ip3/smokesignal.events.ico"@
    } else if l == "recipe"@ {
        "https://icons.duckduckgo.com/ip3/recipe.exchange.ico"@
    } else if l == "leaflet"@ {
        "https://icons.duckduckgo.com/ip3/leaflet.pub.ico"@
    } else if l == "popfeed"@ {
        "https://icons.duckduckgo.com/ip3/popfeed.social.ico"@
    } else if l == "whitewind"@ {
        "https://icons.duckduckgo.com/ip3/whtwnd.com.ico"@
    } else {
        "https://ui-avatars.com/api/?name="@ + service + "&background=random&color=fff"@
    }
}

/// The icon of a service, chosen by its name in lower case; a service without
/// one gets a generated avatar with its name as written.
pub open spec fn service_icon_of(service: Seq<char>) -> Seq<char> {
    icon_for(lowercase(service), service)
}

/// The icon of a service whose name is ASCII text.
pub open spec fn ascii_service_icon_of(service: Seq<char>) -> Seq<char> {
    icon_for(ascii_lower(service), service)
}

/// Each known service name is ASCII and already in lower case.
proof fn lemma_known_service_is_lower(k: Seq<char>)
    requires
        known_service(k),
    ensures
        is_ascii_text(k),
        ascii_lower(k) == k,
{
    reveal_strlit("frontpage");
    reveal_strlit("nooki");
    reveal_strlit("pinksea");
    reveal_strlit("ruthub");
    reveal_strlit("smokesignal");
    reveal_strlit("recipe");
    reveal_strlit("leaflet");
    reveal_strlit("popfeed");
    reveal_strlit("whitewind");
    assert(ascii_lower(k) =~= k);
}

/// The icon ignores letter case: a name whose lower case is a known service
/// `k` gets the icon that `k` itself gets (`k` is ASCII, so the second clause
/// of `get_service_icon` gives the icon of `k`).
pub proof fn law_icon_ignores_case(s: Seq<char>, k: Seq<char>)
    requires
        known_service(k),
        lowercase(s) == k,
    ensures
        is_ascii_text(k),
        service_icon_of(s) == ascii_service_icon_of(k),
{
    lemma_known_service_is_lower(k);
}

/// get icon URL for a service
pub fn get_service_icon(service: &str) -> (r: String)
    ensures
        r@ == service_icon_of(service@),
        is_ascii_text(service@) ==> r@ == ascii_service_icon_of(service@),
{
    let low = to_lowercase(service);
    let l = low.as_str();
    if str_eq(l, "frontpage") {
        String::from_str("https://frontpage.fyi/frontpage-logo.svg")
    } else if str_eq(l, "nooki") {
        String::from_str("https://icons.duckduckgo.com/ip3/nooki.me.ico")
    } else if str_eq(l, "pinksea") {
        String::from_str("https://icons.duckduckgo.com/ip3/pinksea.art.ico")
    } else if str_eq(l, "ruthub") {
        String::from_str("https://ruthub.com/favicon.svg")
    } else if str_eq(l, "smokesignal") {
        String::from_str("https://icons.duckduckgo.com/ip3/smokesignal.events.ico")
    } else if str_eq(l, "recipe") {
        String::from_str("https://icons.duckduckgo.com/ip3/recipe.exchange.ico")
    } else if str_eq(l, "leaflet") {
        String::from_str("https://icons.duckduckgo.com/ip3/leaflet.pub.ico")
    } else if str_eq(l, "popfeed") {
        String::from_str("https://icons.duckduckgo.com/ip3/popfeed.social.ico")
    } else if str_eq(l, "whitewind") {
        String::from_str("https://icons.duckduckgo.com/ip3/whtwnd.com.ico")
    } else {
        let mut r = String::from_str("https://ui-avatars.com/api/?name=");
        r.append(service);
        r.append("&background=random&color=fff");
        r
    }
}


/// `t` is the text of the time written in `at`, wherever chrono reads `at`
/// and the time lies in chrono's range of dates.
pub open spec fn time_text_fits(t: Seq<char>, at: Seq<char>) -> bool {
    rfc3339_millis(at) matches Some(ms) ==> (in_chrono_range(secs_of(ms)) ==> t == utc_text(
        secs_of(ms) as i64,
    ))
}

/// The time written in `at`, as the site shows times
/// (`ts_to_dt(str_to_timestamp(at) / 1000)`).
pub fn time_text(at: &str) -> (r: String)
    ensures
        time_text_fits(r@, at@),
{
    let secs = str_to_secs(at);
    ts_to_dt(secs)
}


/// What the slug crate's `slugify` makes of `s`.
pub uninterp spec fn slug_of(s: Seq<char>) -> Seq<char>;

/// A slug as the slug crate documents it: only `a-z`, `0-9` and `-`, never
/// two `-` in a row, and no `-` at either end.
pub open spec fn is_slug(t: Seq<char>) -> bool {
    &&& forall|i: int|
        0 <= i < t.len() ==> ('a' <= #[trigger] t[i] <= 'z' || '0' <= t[i] <= '9' || t[i] == '-')
    &&& forall|i: int| 0 <= i < t.len() - 1 ==> !(#[trigger] t[i] == '-' && t[i + 1] == '-')
    &&& t.len() > 0 ==> t[0] != '-' && t[t.len() - 1] != '-'
}

/// The slug crate's walk over ASCII text: letters (lowered) and digits are
/// kept, every run of other characters becomes one `-`, and none is put at the
/// start; the second part tells whether the slug so far ends in `-` or is empty.
pub open spec fn ascii_slug_run(s: Seq<char>) -> (Seq<char>, bool)
    decreases s.len(),
{
    if s.len() == 0 {
        (Seq::empty(), true)
    } else {
        let (t, dash) = ascii_slug_run(s.drop_last());
        let c = s.last();
        if ('a' <= c && c <= 'z') || ('0' <= c && c <= '9') {
            (t.push(c), false)
        } else if 'A' <= c && c <= 'Z' {
            (t.push(ascii_lower_char(c)), false)
        } else if !dash {
            (t.push('-'), true)
        } else {
            (t, true)
        }
    }
}

/// The slug of ASCII text: the walk above, without a final `-`.
pub open spec fn ascii_slug(s: Seq<char>) -> Seq<char> {
    let t = ascii_slug_run(s).0;
    if t.len() > 0 && t.last() == '-' {
        t.drop_last()
    } else {
        t
    }
}

/// slug: `slugify(s)`. The result is what the name `slug_of` gives, and a
/// slug as the crate's documentation describes one. On ASCII text the source
/// keeps letters (lowered) and digits, turns each run of other characters
/// into one `-`, and drops a `-` at either end: that is `ascii_slug(s)`.
#[verifier::external_body]
pub(crate) fn slugify(s: &str) -> (r: String)
    ensures
        r@ == slug_of(s@),
        is_slug(r@),
        is_ascii_text(s@) ==> r@ == ascii_slug(s@),
{
    slug::slugify(s)
}


/// The host of an address never holds a slash.
pub proof fn law_host_has_no_slash(uri: Seq<char>)
    ensures
        !host_of(uri).contains('/'),
{
    let a = replace_all(uri, "http://"@, ""@);
    let b = replace_all(a, "https://"@, ""@);
    let c = replace_all(b, "www."@, ""@);
    crate::text::lemma_split_nonempty(c, '/');
    crate::text::lemma_split_pieces_plain(c, '/');
}

} // verus!
