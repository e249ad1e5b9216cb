//! The page of a handle, `/:handle`: what its profile, links and records show.
use vstd::prelude::*;
use vstd::string::StringExecFns;

use crate::helper::utils::{get_ico, ico_of, in_chrono_range, ts_to_dt, utc_text};
use crate::resources::atpage::{text_or_empty, AtRecord, LinkEntry};
use crate::resources::auth::ProfileRes;
use crate::text::{blank, ends_with, has_prefix, has_suffix, is_blank, remove_char, starts_with, without_char};

verus! {

/// The style of a page that sets none of its own.
pub const DEFAULT_STYLE: &'static str = "
\tbody {
\t\tbackground-color: #fff8e3; 
\t}
\t.at-page {
\t  max-width: 520px;
\t}
\t.at-card {    
\t\tpadding: 10px;
\t\tmargin: 5px auto;
\t\tbackground: #dee9de;
\t\tword-break: break-word;
\t\tborder-radius: 8px;
\t\tbox-sizing: border-box;
\t}
\t.at-hdl {
\t\tcolor: rgb(25, 137, 254);
\t}
\t.at-kind {
\t\tcolor: green;
\t}";

/// The title of the page of `handle`, or `None` (the page says "No Data")
/// where the handle is blank.
pub fn page_title(handle: &str) -> (r: Option<String>)
    ensures
        blank(handle@) ==> r is None,
        !blank(handle@) ==> (r matches Some(t) && t@ == handle@ + " | atpage"@),
{
    if is_blank(handle) {
        None
    } else {
        let mut t = String::from_str(handle);
        t.append(" | atpage");
        Some(t)
    }
}

/// An optional text that is given and not blank.
pub open spec fn filled(o: Option<String>) -> bool {
    o matches Some(s) && !blank(s@)
}

/// The style of a page: its own, loaded as a stylesheet where it is an
/// `https://` address of a `.css` file, else inlined; the default style where
/// it sets none.
pub fn page_style(style: Option<String>) -> (r: (bool, String))
    ensures
        filled(style) ==> r.1@ == style->0@ && r.0 == (has_prefix(style->0@, "https://"@)
            && has_suffix(style->0@, ".css"@)),
        !filled(style) ==> !r.0 && r.1@ == DEFAULT_STYLE@,
{
    match style {
        Some(s) => {
            if !is_blank(s.as_str()) {
                let is_src = starts_with(s.as_str(), "https://") && ends_with(s.as_str(), ".css");
                return (is_src, s);
            }
        },
        None => {},
    }
    (false, String::from_str(DEFAULT_STYLE))
}

/// The script of a page: loaded where it is an `https://` address, else
/// inlined; none where it sets none.
pub fn page_script(script: Option<String>) -> (r: (bool, String))
    ensures
        filled(script) ==> r.1@ == script->0@ && r.0 == has_prefix(script->0@, "https://"@),
        !filled(script) ==> !r.0 && r.1@.len() == 0,
{
    match script {
        Some(s) => {
            if !is_blank(s.as_str()) {
                let is_link = starts_with(s.as_str(), "https://");
                return (is_link, s);
            }
        },
        None => {},
    }
    (false, String::new())
}

/// The name a profile shows: its display name, or its handle where that is
/// absent or blank.
pub open spec fn display_name_of(p: ProfileRes) -> Seq<char> {
    if filled(p.displayName) {
        p.displayName->0@
    } else {
        p.handle@
    }
}

/// The name a profile shows.
pub fn display_name(profile: &ProfileRes) -> (r: String)
    ensures
        r@ == display_name_of(*profile),
{
    match &profile.displayName {
        Some(n) => {
            if !is_blank(n.as_str()) {
                return n.clone();
            }
        },
        None => {},
    }
    profile.handle.clone()
}

/// The invitation at the foot of a page.
pub fn join_label(profile: &ProfileRes) -> (r: String)
    ensures
        r@ == "Join "@ + display_name_of(*profile) + " on ATPage"@,
{
    let name = display_name(profile);
    let mut r = String::from_str("Join ");
    r.append(name.as_str());
    r.append(" on ATPage");
    r
}

/// The Bluesky profile of a handle.
pub fn profile_link(handle: &str) -> (r: String)
    ensures
        r@ == "https://bsky.app/profile/"@ + handle@,
{
    let mut r = String::from_str("https://bsky.app/profile/");
    r.append(handle);
    r
}

/// The address to share for the page of a handle.
pub fn page_share_text(handle: &str) -> (r: String)
    ensures
        r@ == "https://atpage.one/"@ + handle@,
{
    let mut r = String::from_str("https://atpage.one/");
    r.append(handle);
    r
}

/// Where a page's share button sends its text.
#[derive(PartialEq, Eq, Structural, Clone, Copy, Debug)]
pub enum ShareTarget {
    Bluesky,
    LinkedIn,
    Facebook,
    Twitter,
}

/// The address that shares `text` on a network.
pub open spec fn share_url_of(target: ShareTarget, text: Seq<char>) -> Seq<char> {
    match target {
        ShareTarget::Bluesky => "https://bsky.app/intent/compose?text="@ + text,
        ShareTarget::LinkedIn => "https://www.linkedin.com/sharing/share-offsite/?url="@ + text,
        ShareTarget::Facebook => "https://www.facebook.com/sharer.php?u="@ + text,
        ShareTarget::Twitter => "https://x.com/intent/tweet?text="@ + text,
    }
}

/// The address that shares `text` on a network.
pub fn share_url(target: ShareTarget, text: &str) -> (r: String)
    ensures
        r@ == share_url_of(target, text@),
{
    let mut r = match target {
        ShareTarget::Bluesky => String::from_str("https://bsky.app/intent/compose?text="),
        ShareTarget::LinkedIn => String::from_str(
            "https://www.linkedin.com/sharing/share-offsite/?url=",
        ),
        ShareTarget::Facebook => String::from_str("https://www.facebook.com/sharer.php?u="),
        ShareTarget::Twitter => String::from_str("https://x.com/intent/tweet?text="),
    };
    r.append(text);
    r
}

/// How a link of a page shows: styled links as cards with a description and a
/// share button, others as an icon; class names carry the link's name without
/// spaces.
pub struct LinkCard {
    pub url: String,
    pub name: String,
    pub styled: bool,
    pub style: String,
    pub icon: String,
    pub description: String,
    pub cname: String,
    pub card_class: String,
    pub link_class: String,
    pub img_class: String,
    pub desc_class: String,
    pub name_class: String,
    pub des_class: String,
    pub plain_link_class: String,
}

fn with_suffix(prefix: &str, s: &str) -> (r: String)
    ensures
        r@ == prefix@ + s@,
{
    let mut r = String::from_str(prefix);
    r.append(s);
    r
}

/// How a link of a page shows.
pub fn link_card(link: &LinkEntry) -> (r: LinkCard)
    ensures
        r.url@ == link.url@,
        r.name@ == link.name@,
        r.styled == filled(link.style),
        r.styled ==> r.style@ == link.style->0@,
        !r.styled ==> r.style@.len() == 0,
        filled(link.icon) ==> r.icon@ == link.icon->0@,
        !filled(link.icon) ==> r.icon@ == ico_of(link.url@),
        r.description@ == text_or_empty(link.description),
        r.cname@ == without_char(link.name@, ' '),
        r.card_class@ == "w-full flex gap-2 at-link-card at-link-card-"@ + r.cname@,
        r.link_class@ == "w-full flex gap-2 link link-hover at-link at-link-"@ + r.cname@,
        r.img_class@ == "h-6 w-6 hover:scale-[108%] at-ico at-ico-"@ + r.cname@,
        r.desc_class@ == "flex gap-2 at-desc at-desc-"@ + r.cname@,
        r.name_class@ == "at-name at-name-"@ + r.cname@,
        r.des_class@ == "at-des at-des-"@ + r.cname@,
        r.plain_link_class@ == "link link-hover at-link at-link-"@ + r.cname@,
{
    let (style, styled) = match &link.style {
        Some(s) => {
            if !is_blank(s.as_str()) {
                (s.clone(), true)
            } else {
                (String::new(), false)
            }
        },
        None => (String::new(), false),
    };
    let mut icon_given = false;
    let mut icon = String::new();
    match &link.icon {
        Some(ico) => {
            if !is_blank(ico.as_str()) {
                icon = ico.clone();
                icon_given = true;
            }
        },
        None => {},
    }
    if !icon_given {
        icon = get_ico(link.url.as_str());
    }
    let description = match &link.description {
        Some(d) => d.clone(),
        None => String::new(),
    };
    let cname = remove_char(link.name.as_str(), ' ');
    let c = cname.as_str();
    LinkCard {
        url: link.url.clone(),
        name: link.name.clone(),
        styled,
        style,
        icon,
        description,
        card_class: with_suffix("w-full flex gap-2 at-link-card at-link-card-", c),
        link_class: with_suffix("w-full flex gap-2 link link-hover at-link at-link-", c),
        img_class: with_suffix("h-6 w-6 hover:scale-[108%] at-ico at-ico-", c),
        desc_class: with_suffix("flex gap-2 at-desc at-desc-", c),
        name_class: with_suffix("at-name at-name-", c),
        des_class: with_suffix("at-des at-des-", c),
        plain_link_class: with_suffix("link link-hover at-link at-link-", c),
        cname,
    }
}

/// How a record card shows: class names carry the record's kind without
/// spaces; the author by avatar, profile link and name; the date of the record.
pub struct RecCardView {
    pub kd: String,
    pub avatar: String,
    pub profile_link: String,
    pub name: String,
    pub date: String,
    pub kind_label: String,
    pub card_class: String,
    pub meta_class: String,
    pub ava_class: String,
    pub hdl_class: String,
    pub date_class: String,
    pub kind_class: String,
    pub title_class: String,
    pub title_link_class: String,
    pub images_class: String,
    pub image_class: String,
    pub ctn_class: String,
}

/// How a record of `profile` shows.
pub fn rec_card(rec: &AtRecord, profile: &ProfileRes) -> (r: RecCardView)
    ensures
        r.kd@ == without_char(rec.kind@, ' '),
        r.avatar@ == text_or_empty(profile.avatar),
        r.profile_link@ == "https://bsky.app/profile/"@ + profile.handle@,
        r.name@ == display_name_of(*profile),
        in_chrono_range(rec.timestamp as int) ==> r.date@ == utc_text(rec.timestamp),
        r.kind_label@ == "@"@ + r.kd@,
        r.card_class@ == "w-full p-2 at-card at-card-"@ + r.kd@,
        r.meta_class@ == "flex items-center justify-start gap-2 at-meta at-meta-"@ + r.kd@,
        r.ava_class@ == "h-4 w-4 rounded at-ava at-ava-"@ + r.kd@,
        r.hdl_class@ == "link link-hover text-xs at-hdl at-hdl-"@ + r.kd@,
        r.date_class@ == "text-xs at-date at-date-"@ + r.kd@,
        r.kind_class@ == "link link-hover text-xs at-kind at-kind-"@ + r.kd@,
        r.title_class@ == "flex items-center justify-start gap-2 at-title at-title-"@ + r.kd@,
        r.title_link_class@ == "font-bold text-xl link link-hover at-title-link at-title-link-"@
            + r.kd@,
        r.images_class@
            == "w-full flex flex-wrap items-center justify-center gap-2 at-images at-images-"@
            + r.kd@,
        r.image_class@ == "max-w-full p-2 at-image at-image-"@ + r.kd@,
        r.ctn_class@ == "flex-1 w-full prose no-scrollbar at-ctn at-ctn-"@ + r.kd@,
{
    let kd = remove_char(rec.kind.as_str(), ' ');
    let k = kd.as_str();
    RecCardView {
        avatar: match &profile.avatar {
            Some(a) => a.clone(),
            None => String::new(),
        },
        profile_link: profile_link(profile.handle.as_str()),
        name: display_name(profile),
        date: ts_to_dt(rec.timestamp),
        kind_label: with_suffix("@", k),
        card_class: with_suffix("w-full p-2 at-card at-card-", k),
        meta_class: with_suffix("flex items-center justify-start gap-2 at-meta at-meta-", k),
        ava_class: with_suffix("h-4 w-4 rounded at-ava at-ava-", k),
        hdl_class: with_suffix("link link-hover text-xs at-hdl at-hdl-", k),
        date_class: with_suffix("text-xs at-date at-date-", k),
        kind_class: with_suffix("link link-hover text-xs at-kind at-kind-", k),
        title_class: with_suffix("flex items-center justify-start gap-2 at-title at-title-", k),
        title_link_class: with_suffix(
            "font-bold text-xl link link-hover at-title-link at-title-link-",
            k,
        ),
        images_class: with_suffix(
            "w-full flex flex-wrap items-center justify-center gap-2 at-images at-images-",
            k,
        ),
        image_class: with_suffix("max-w-full p-2 at-image at-image-", k),
        ctn_class: with_suffix("flex-1 w-full prose no-scrollbar at-ctn at-ctn-", k),
        kd,
    }
}

} // verus!
