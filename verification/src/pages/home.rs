//! The home page and the setup of a page, `/setup`: its services, its links
//! and the record it saves.
use vstd::prelude::*;
use vstd::string::StringExecFns;

use crate::resources::atpage::{AtPageValue, LinkEntry};
use crate::text::{blank, is_blank, str_eq, views};

verus! {

/// (name, category, domain)
pub const AT_SERVICES: [(&'static str, &'static str, &'static str); 7] = [
    ("frontpage", "Link aggregator", "https://frontpage.fyi"),
    ("pinksea", "Oekaki BBS", "https://pinksea.art"),
    ("ruthub", "Tracker", "https://ruthub.com"),
    ("whitewind", "Blog", "https://whtwnd.com"),
    ("smokesignal", "Events", "https://smokesignal.events"),
    ("grain", "Photo sharing", "https://grain.social"),
    ("recipe", "Recipe sharing", "https://recipe.exchange"),
];

pub const DEFAULT_STYLE: &'static str = "
\tbody {
\t\tbackground-color: #fff8e3; 
\t}
\t.at-page {
\t  max-width: 520px;
\t}
\t.at-card {    
\t\tpadding: 10px;
\t\tmargin: 5px auto;
\t\tbackground: #dee9de;
\t\tword-break: break-word;
\t\tborder-radius: 8px;
\t\tbox-sizing: border-box;
\t}
\t.at-hdl {
\t\tcolor: rgb(25, 137, 254);
\t}
\t.at-kind {
\t\tcolor: green;
\t}
";

pub const LINK_STYLE: &'static str = "padding: 10px 18px; background-color: blue; color: white; border-radius: 5%;";

/// Where the home page's "View" button goes: the page of the handle typed, or
/// the site's own page where nothing was typed.
pub fn view_path(handle: &str) -> (r: String)
    ensures
        blank(handle@) ==> r@ == "/atpage.one"@,
        !blank(handle@) ==> r@ == "/"@ + handle@,
{
    if is_blank(handle) {
        String::from_str("/atpage.one")
    } else {
        let mut r = String::from_str("/");
        r.append(handle);
        r
    }
}

/// The list of services with `s` taken out.
pub open spec fn without_service(v: Seq<Seq<char>>, s: Seq<char>) -> Seq<Seq<char>> {
    v.filter(other_than(s))
}

/// Any text but `s`.
pub open spec fn other_than(s: Seq<char>) -> spec_fn(Seq<char>) -> bool {
    |x: Seq<char>| x != s
}

/// The services after a service's box is ticked or cleared: ticking adds it
/// at the end unless it is there; clearing takes out every copy of it.
pub open spec fn services_after(v: Seq<Seq<char>>, s: Seq<char>, checked: bool) -> Seq<Seq<char>> {
    if checked {
        if v.contains(s) {
            v
        } else {
            v.push(s)
        }
    } else {
        without_service(v, s)
    }
}

/// Tick or clear the box of the service `s`.
pub fn set_service(services: &mut Vec<String>, s: &str, checked: bool)
    ensures
        views(final(services)@) == services_after(views(old(services)@), s@, checked),
{
    let ghost old_v = views(services@);
    if checked {
        let mut found = false;
        let mut i: usize = 0;
        while i < services.len()
            invariant
                i <= services@.len(),
                views(services@) == old_v,
                found <==> views(services@).take(i as int).contains(s@),
            decreases services@.len() - i,
        {
            proof {
                let t = views(services@).take(i + 1);
                assert(t.drop_last() =~= views(services@).take(i as int));
                assert(t.last() == services@[i as int]@);
                if t.contains(s@) && !views(services@).take(i as int).contains(s@) {
                    let k = choose|k: int| 0 <= k < t.len() && t[k] == s@;
                    assert(k == i);
                }
                if views(services@).take(i as int).contains(s@) {
                    let k = choose|k: int| 0 <= k < i && views(services@).take(i as int)[k] == s@;
                    assert(t[k] == s@);
                }
            }
            if str_eq(services[i].as_str(), s) {
                found = true;
            }
            i = i + 1;
        }
        assert(views(services@).take(services@.len() as int) =~= views(services@));
        if !found {
            services.push(String::from_str(s));
            assert(views(services@) =~= old_v.push(s@));
        }
    } else {
        let mut pending: Vec<String> = Vec::new();
        let n = services.len();
        while services.len() > 0
            invariant
                pending@.len() + services@.len() == n,
                n == old_v.len(),
                forall|k: int| 0 <= k < services@.len() ==> #[trigger] services@[k]@ == old_v[k],
                forall|k: int|
                    0 <= k < pending@.len() ==> #[trigger] pending@[k]@ == old_v[n - 1 - k],
            decreases services.len(),
        {
            let x = services.pop().unwrap();
            pending.push(x);
        }
        let mut i: usize = 0;
        while i < n
            invariant
                i <= n,
                n == old_v.len(),
                pending@.len() == n - i,
                forall|k: int|
                    0 <= k < pending@.len() ==> #[trigger] pending@[k]@ == old_v[n - 1 - k],
                views(services@) == without_service(old_v.take(i as int), s@),
            decreases n - i,
        {
            let x = pending.pop().unwrap();
            assert(x@ == old_v[i as int]);
            assert(old_v.take(i + 1).drop_last() =~= old_v.take(i as int));
            reveal_with_fuel(Seq::filter, 1);
            let ghost before = services@;
            if !str_eq(x.as_str(), s) {
                services.push(x);
                assert(views(services@) =~= views(before).push(x@));
            } else {
                assert(views(services@) =~= views(before));
            }
            i = i + 1;
        }
        assert(old_v.take(n as int) =~= old_v);
    }
}

/// Ticking a service's box twice is ticking it once, and so for clearing;
/// after ticking the service is listed, after clearing it is not.
pub proof fn law_set_service(v: Seq<Seq<char>>, s: Seq<char>, checked: bool)
    ensures
        services_after(services_after(v, s, checked), s, checked) == services_after(v, s, checked),
        checked ==> services_after(v, s, checked).contains(s),
        !checked ==> !services_after(v, s, checked).contains(s),
{
    let p = other_than(s);
    if checked {
        if !v.contains(s) {
            assert(v.push(s)[v.len() as int] == s);
        }
    } else {
        let w = without_service(v, s);
        assert(w == v.filter(p));
        broadcast use vstd::seq_lib::group_filter_ensures;
        assert forall|i: int| 0 <= i < w.len() implies p(#[trigger] w[i]) by {}
        lemma_filter_all_keeps(w, p);
        assert(without_service(w, s) == w.filter(p));
        if w.contains(s) {
            let i = choose|i: int| 0 <= i < w.len() && w[i] == s;
            assert(p(w[i]));
        }
    }
}

proof fn lemma_filter_all_keeps<A>(s: Seq<A>, p: spec_fn(A) -> bool)
    requires
        forall|i: int| 0 <= i < s.len() ==> p(#[trigger] s[i]),
    ensures
        s.filter(p) == s,
    decreases s.len(),
{
    reveal_with_fuel(Seq::filter, 1);
    if s.len() > 0 {
        lemma_filter_all_keeps(s.drop_last(), p);
        assert(s.drop_last().push(s.last()) =~= s);
    } else {
        assert(s.filter(p) =~= s);
    }
}

/// The links of a page without those of the address `url`.
pub open spec fn links_without(v: Seq<LinkEntry>, url: Seq<char>) -> Seq<LinkEntry> {
    v.filter(not_to(url))
}

/// Any link whose address is not `url`.
pub open spec fn not_to(url: Seq<char>) -> spec_fn(LinkEntry) -> bool {
    |l: LinkEntry| l.url@ != url
}

/// Take out every link of the page to the address `url`.
pub fn remove_link(links: &mut Vec<LinkEntry>, url: &str)
    ensures
        final(links)@ == links_without(old(links)@, url@),
{
    let ghost old_v = links@;
    let mut pending: Vec<LinkEntry> = Vec::new();
    let n = links.len();
    while links.len() > 0
        invariant
            pending@.len() + links@.len() == n,
            n == old_v.len(),
            forall|k: int| 0 <= k < links@.len() ==> #[trigger] links@[k] == old_v[k],
            forall|k: int| 0 <= k < pending@.len() ==> #[trigger] pending@[k] == old_v[n - 1 - k],
        decreases links.len(),
    {
        let x = links.pop().unwrap();
        pending.push(x);
    }
    let mut i: usize = 0;
    while i < n
        invariant
            i <= n,
            n == old_v.len(),
            pending@.len() == n - i,
            forall|k: int| 0 <= k < pending@.len() ==> #[trigger] pending@[k] == old_v[n - 1 - k],
            links@ == links_without(old_v.take(i as int), url@),
        decreases n - i,
    {
        let x = pending.pop().unwrap();
        assert(x == old_v[i as int]);
        assert(old_v.take(i + 1).drop_last() =~= old_v.take(i as int));
        reveal_with_fuel(Seq::filter, 1);
        if !str_eq(x.url.as_str(), url) {
            links.push(x);
        }
        i = i + 1;
    }
    assert(old_v.take(n as int) =~= old_v);
}

/// Add a link to the page, in place of any link to the same address, at the end.
pub fn upsert_link(links: &mut Vec<LinkEntry>, new_link: LinkEntry)
    ensures
        final(links)@ == links_without(old(links)@, new_link.url@).push(new_link),
{
    let url = new_link.url.clone();
    remove_link(links, url.as_str());
    links.push(new_link);
}

/// After a link is added, it is the one link to its address, and the last
/// link of the page; taking out its address afterwards leaves the page as if it
/// had never been added.
pub proof fn law_upsert_link(v: Seq<LinkEntry>, l: LinkEntry)
    ensures
        ({
            let w = links_without(v, l.url@).push(l);
            &&& w.last() == l
            &&& links_without(w, l.url@) == links_without(v, l.url@)
            &&& forall|i: int|
                0 <= i < w.len() && (#[trigger] w[i]).url@ == l.url@ ==> i == w.len() - 1
        }),
{
    let p = not_to(l.url@);
    let u = v.filter(p);
    let w = u.push(l);
    broadcast use vstd::seq_lib::group_filter_ensures;
    reveal_with_fuel(Seq::filter, 1);
    assert(w.drop_last() =~= u);
    assert(u.filter(p) =~= u) by {
        assert forall|i: int| 0 <= i < u.len() implies p(#[trigger] u[i]) by {}
        lemma_filter_all_keeps(u, p);
    }
    assert forall|i: int| 0 <= i < w.len() && (#[trigger] w[i]).url@ == l.url@ implies i == w.len()
        - 1 by {
        if i < u.len() {
            assert(w[i] == u[i]);
            assert(p(u[i]));
        }
    }
}

/// A new link of the page, made from the link form.
pub fn new_link(
    url: String,
    name: String,
    description: Option<String>,
    style: Option<String>,
    icon: Option<String>,
) -> (r: LinkEntry)
    ensures
        r.url == url,
        r.name == name,
        r.description == description,
        r.style == style,
        r.icon == icon,
        r.order == 0,
        r.createdAt == 0,
{
    LinkEntry { url, name, order: 0, createdAt: 0, description, icon, style }
}

/// The page record the setup form saves.
pub fn new_page(
    services: Vec<String>,
    links: Vec<LinkEntry>,
    title: Option<String>,
    description: Option<String>,
    style: Option<String>,
    script: Option<String>,
) -> (r: AtPageValue)
    ensures
        r.kind@.len() == 0,
        r.services == services,
        r.links == links,
        r.title == title,
        r.description == description,
        r.style == style,
        r.script == script,
{
    AtPageValue { kind: String::new(), links, services, title, description, style, script }
}

/// The page of a handle, where the setup goes once the page is saved.
pub fn page_path(handle: &str) -> (r: String)
    ensures
        r@ == "/"@ + handle@,
{
    let mut r = String::from_str("/");
    r.append(handle);
    r
}

} // verus!
