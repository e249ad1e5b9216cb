//! Markdown to HTML, with LaTeX math as MathML, headings with anchors and
//! fenced code in labelled blocks.
use pulldown_cmark::{CodeBlockKind, CowStr, Event, Options, Parser, Tag, TagEnd};
use vstd::prelude::*;
use vstd::string::StringExecFns;
use vstd::utf8::{decode_utf8, valid_utf8};

use crate::helper::utils::{slug_of, slugify};
use crate::text::{chars_of, decimal, int_text, join, joined, views};

verus! {

pub struct HTMLOutput {
    pub html: String,
}

#[verifier::external_type_specification]
#[verifier::external_body]
pub struct ExMdEvent<'a>(Event<'a>);

#[verifier::external_type_specification]
#[verifier::external_body]
pub struct ExMdTag<'a>(Tag<'a>);

/// A Markdown event, as far as the rendering reads it.
pub enum MdEvent {
    /// a heading begins (`level` 1 to 6), with its `{#id .class key=value}`
    HeadingStart {
        level: u8,
        id: Option<String>,
        classes: Vec<String>,
        attrs: Vec<(String, Option<String>)>,
    },
    BlockQuoteStart,
    /// a fenced code block begins, in this language
    FencedCodeStart(String),
    /// inline code
    Code(String),
    /// `$math$`
    InlineMath(String),
    /// `$$math$$`
    DisplayMath(String),
    HeadingEnd,
    CodeBlockEnd,
    BlockQuoteEnd,
    Text(String),
    /// any other event, written as the HTML writer writes it
    Other,
}

/// What becomes of an event: it stays, or is replaced by text or raw HTML.
pub enum MdEdit {
    Keep,
    Text(String),
    Html(String),
}

/// An edit, its text taken by its characters.
pub enum MdEditV {
    Keep,
    Text(Seq<char>),
    Html(Seq<char>),
}

impl View for MdEdit {
    type V = MdEditV;

    open spec fn view(&self) -> MdEditV {
        match self {
            MdEdit::Keep => MdEditV::Keep,
            MdEdit::Text(t) => MdEditV::Text(t@),
            MdEdit::Html(h) => MdEditV::Html(h@),
        }
    }
}

/// The views of a list of edits.
pub open spec fn edits_view(v: Seq<MdEdit>) -> Seq<MdEditV> {
    v.map_values(|e: MdEdit| e@)
}

/// The events pulldown-cmark reads in `input` with all its options on, as
/// `MdEvent`s.
pub uninterp spec fn markdown_events_of(input: Seq<char>) -> Seq<MdEvent>;

/// The bytes pulldown-cmark's HTML writer writes for the events of `input`
/// (all options on), each replaced as its edit says.
pub uninterp spec fn rendered_html(input: Seq<char>, edits: Seq<MdEditV>) -> Seq<u8>;

/// What latex2mathml makes of the LaTeX `latex`: the MathML of its content, or
/// the text (`Display`) of the error it finds.
pub uninterp spec fn latex_conversion(latex: Seq<char>) -> Result<Seq<char>, Seq<char>>;

/// std: `format!("{:?}", s)`, the quoted and escaped text of a string.
pub uninterp spec fn debug_quoted(s: Seq<char>) -> Seq<char>;

/// pulldown-cmark: the start tags the rendering reads, as `MdEvent`s; a
/// heading's level by its number, its texts as `String`s. Other tags become
/// `Other`. A part of `markdown_events`.
#[verifier::external_body]
fn start_event(tag: Tag) -> MdEvent {
    match tag {
        Tag::Heading { level, id, classes, attrs } => MdEvent::HeadingStart {
            level: level as u8,
            id: id.map(|i| i.to_string()),
            classes: classes.iter().map(|c| c.to_string()).collect(),
            attrs: attrs.iter().map(|a| (a.0.to_string(), a.1.as_ref().map(|v| v.to_string()))).collect(),
        },
        Tag::BlockQuote(_) => MdEvent::BlockQuoteStart,
        Tag::CodeBlock(CodeBlockKind::Fenced(lang)) => MdEvent::FencedCodeStart(lang.to_string()),
        _ => MdEvent::Other,
    }
}

/// pulldown-cmark: an `Event` as an `MdEvent`, one variant for another. A part
/// of `markdown_events`.
#[verifier::external_body]
fn md_event(ev: Event) -> MdEvent {
    match ev {
        Event::Start(tag) => start_event(tag),
        Event::End(TagEnd::Heading(_)) => MdEvent::HeadingEnd,
        Event::End(TagEnd::CodeBlock) => MdEvent::CodeBlockEnd,
        Event::End(TagEnd::BlockQuote(_)) => MdEvent::BlockQuoteEnd,
        Event::Code(c) => MdEvent::Code(c.to_string()),
        Event::InlineMath(c) => MdEvent::InlineMath(c.to_string()),
        Event::DisplayMath(c) => MdEvent::DisplayMath(c.to_string()),
        Event::Text(t) => MdEvent::Text(t.to_string()),
        _ => MdEvent::Other,
    }
}

/// pulldown-cmark: `Parser::new_ext(input, Options::all())`, its events
/// collected as `MdEvent`s; they are what the name `markdown_events_of` gives.
#[verifier::external_body]
fn markdown_events(input: &str) -> (r: Vec<MdEvent>)
    ensures
        r@ == markdown_events_of(input@),
{
    let mut out = Vec::new();
    for ev in Parser::new_ext(input, Options::all()) {
        out.push(md_event(ev));
    }
    out
}

/// pulldown-cmark: `html::write_html_io` into a byte buffer, over the events
/// of `Parser::new_ext(input, Options::all())`, each replaced as `edits` says;
/// the bytes are what the name `rendered_html` gives.
#[verifier::external_body]
fn render_markdown(input: &str, edits: &Vec<MdEdit>) -> (r: Vec<u8>)
    ensures
        r@ == rendered_html(input@, edits_view(edits@)),
{
    let mut out: Vec<u8> = Vec::new();
    let events = Parser::new_ext(input, Options::all()).zip(edits.iter()).map(|(ev, e)| match e {
        MdEdit::Keep => ev,
        MdEdit::Text(t) => Event::Text(CowStr::from(t.clone())),
        MdEdit::Html(h) => Event::Html(CowStr::from(h.clone())),
    });
    pulldown_cmark::html::write_html_io(std::io::Cursor::new(&mut out), events).unwrap_or(());
    out
}

/// latex2mathml: `latex_to_mathml(latex, Inline or Block)`, its error given by
/// its `Display` text. The source frames the converted content as
/// `<math xmlns="http://www.w3.org/1998/Math/MathML" display="inline|block">`
/// ... `</math>`; the content and the error text are what the name
/// `latex_conversion` gives. Its parser panics where `\middle` is followed by
/// something that is not an operator or a bracket, so the call is only made
/// on text where every `\middle` is followed by a delimiter.
#[verifier::external_body]
fn latex_to_mathml(latex: &str, block: bool) -> (r: Result<String, String>)
    requires
        middles_are_safe(latex@),
    ensures
        match r {
            Ok(m) => latex_conversion(latex@) matches Ok(c) && m@ == math_frame(block, c),
            Err(e) => latex_conversion(latex@) matches Err(t) && e@ == t,
        },
{
    let style = if block {
        latex2mathml::DisplayStyle::Block
    } else {
        latex2mathml::DisplayStyle::Inline
    };
    latex2mathml::latex_to_mathml(latex, style).map_err(|e| e.to_string())
}

/// Printable ASCII other than `"` and `\\`: `Debug` writes it as it is.
pub open spec fn is_plain_ascii(s: Seq<char>) -> bool {
    forall|i: int|
        0 <= i < s.len() ==> ' ' <= #[trigger] s[i] && s[i] <= '~' && s[i] != '"' && s[i] != '\\'
}

/// std: `format!("{:?}", s)`; the text is what the name `debug_quoted` gives.
/// `Debug` on a string writes it in double quotes, escaping each character as
/// `char::escape_debug` does, which keeps printable ASCII other than the quote
/// and the backslash: such text comes out between quotes as it is.
#[verifier::external_body]
fn debug_str(s: &str) -> (r: String)
    ensures
        r@ == debug_quoted(s@),
        is_plain_ascii(s@) ==> r@ == seq!['"'] + s@ + seq!['"'],
{
    format!("{:?}", s)
}

/// std: `String::from_utf8`, which refuses bytes that are not UTF-8 and
/// otherwise holds the characters they encode.
#[verifier::external_body]
fn utf8_text(bytes: Vec<u8>) -> (r: Option<String>)
    ensures
        r is Some <==> valid_utf8(bytes@),
        r matches Some(s) ==> s@ == decode_utf8(bytes@),
{
    String::from_utf8(bytes).ok()
}

/// The MathML element around converted math.
pub open spec fn math_frame(block: bool, content: Seq<char>) -> Seq<char> {
    let display = if block {
        "block"@
    } else {
        "inline"@
    };
    "<math xmlns=\"http://www.w3.org/1998/Math/MathML\" display=\""@ + display + "\">"@ + content
        + "</math>"@
}

/// The white space that latex2mathml's lexer skips between tokens.
pub open spec fn is_latex_space(c: char) -> bool {
    c == ' ' || c == '\t' || c == '\n' || c == '\r'
}

/// The first position from `j` on that holds no white space (or the end).
pub open spec fn skip_space(s: Seq<char>, j: int) -> int
    decreases s.len() - j,
{
    if 0 <= j < s.len() && is_latex_space(s[j]) {
        skip_space(s, j + 1)
    } else {
        j
    }
}

/// A character that latex2mathml reads as an operator or a bracket.
pub open spec fn is_delimiter_char(c: char) -> bool {
    c == '=' || c == ';' || c == ',' || c == '.' || c == '+' || c == '-' || c == '*' || c == '/'
        || c == '!' || c == '<' || c == '>' || c == '(' || c == ')' || c == '[' || c == ']' || c
        == '|'
}

/// The length of the delimiter at `k`: one of the characters above, or `\|`,
/// `\{` or `\}`; 0 where there is none.
pub open spec fn delimiter_len(s: Seq<char>, k: int) -> int {
    if 0 <= k < s.len() && is_delimiter_char(s[k]) {
        1
    } else if 0 <= k && k + 1 < s.len() && s[k] == '\\' && (s[k + 1] == '|' || s[k + 1] == '{'
        || s[k + 1] == '}') {
        2
    } else {
        0
    }
}

/// An ASCII letter, which would continue a command's name.
pub open spec fn is_ascii_letter(c: char) -> bool {
    ('a' <= c && c <= 'z') || ('A' <= c && c <= 'Z')
}

/// The command `\middle` starts at `i` (no letter follows it).
pub open spec fn is_middle_at(s: Seq<char>, i: int) -> bool {
    &&& 0 <= i && i + 7 <= s.len()
    &&& s[i] == '\\' && s[i + 1] == 'm' && s[i + 2] == 'i' && s[i + 3] == 'd'
    &&& s[i + 4] == 'd' && s[i + 5] == 'l' && s[i + 6] == 'e'
    &&& !(i + 7 < s.len() && is_ascii_letter(s[i + 7]))
}

/// The `\middle` at `i` is followed by a delimiter, with no prime after it.
pub open spec fn middle_ok_at(s: Seq<char>, i: int) -> bool {
    let k = skip_space(s, i + 7);
    let n = delimiter_len(s, k);
    let m = skip_space(s, k + n);
    n > 0 && !(m < s.len() && s[m] == '\'')
}

/// Every `\middle` in the LaTeX `s` is followed by a delimiter.
pub open spec fn middles_are_safe(s: Seq<char>) -> bool {
    forall|i: int| #[trigger] is_middle_at(s, i) ==> middle_ok_at(s, i)
}

/// Why math with a `\middle` that has no delimiter after it is not rendered.
pub const MIDDLE_NOTE: &'static str = "\\middle is not followed by a delimiter";

/// The HTML for math: its MathML, or a note that it could not be rendered.
pub open spec fn math_html(c: Seq<char>, block: bool) -> Seq<char> {
    if !middles_are_safe(c) {
        "Render math "@ + c + " failed: "@ + MIDDLE_NOTE@
    } else {
        match latex_conversion(c) {
            Ok(m) => math_frame(block, m),
            Err(e) => "Render math "@ + c + " failed: "@ + e,
        }
    }
}

fn skip_space_exec(s: &Vec<char>, j: usize) -> (r: usize)
    requires
        j <= s@.len(),
    ensures
        r == skip_space(s@, j as int),
        j <= r <= s@.len(),
{
    let mut k = j;
    while k < s.len() && (s[k] == ' ' || s[k] == '\t' || s[k] == '\n' || s[k] == '\r')
        invariant
            j <= k <= s@.len(),
            skip_space(s@, k as int) == skip_space(s@, j as int),
        decreases s@.len() - k,
    {
        k = k + 1;
    }
    k
}

fn delimiter_len_exec(s: &Vec<char>, k: usize) -> (r: usize)
    ensures
        r == delimiter_len(s@, k as int),
{
    if k < s.len() {
        let c = s[k];
        if c == '=' || c == ';' || c == ',' || c == '.' || c == '+' || c == '-' || c == '*' || c
            == '/' || c == '!' || c == '<' || c == '>' || c == '(' || c == ')' || c == '[' || c
            == ']' || c == '|' {
            return 1;
        }
        if k + 1 < s.len() && c == '\\' {
            let d = s[k + 1];
            if d == '|' || d == '{' || d == '}' {
                return 2;
            }
        }
    }
    0
}

fn is_middle_exec(s: &Vec<char>, i: usize) -> (r: bool)
    ensures
        r == is_middle_at(s@, i as int),
{
    if i >= s.len() || s.len() - i < 7 {
        return false;
    }
    let head = s[i] == '\\' && s[i + 1] == 'm' && s[i + 2] == 'i' && s[i + 3] == 'd' && s[i + 4]
        == 'd' && s[i + 5] == 'l' && s[i + 6] == 'e';
    if !head {
        return false;
    }
    if i + 7 < s.len() {
        let c = s[i + 7];
        !(('a' <= c && c <= 'z') || ('A' <= c && c <= 'Z'))
    } else {
        true
    }
}

fn middle_ok_exec(s: &Vec<char>, i: usize) -> (r: bool)
    requires
        is_middle_at(s@, i as int),
    ensures
        r == middle_ok_at(s@, i as int),
{
    let len = s.len();
    assert(i + 7 <= len);
    let k = skip_space_exec(s, i + 7);
    let n = delimiter_len_exec(s, k);
    if n == 0 {
        return false;
    }
    let m = skip_space_exec(s, k + n);
    !(m < s.len() && s[m] == '\'')
}

/// Every `\middle` in the LaTeX `latex` is followed by a delimiter, so that
/// latex2mathml can read it.
pub fn middles_safe(latex: &str) -> (r: bool)
    ensures
        r == middles_are_safe(latex@),
{
    let s = chars_of(latex);
    let mut i: usize = 0;
    while i < s.len()
        invariant
            s@ == latex@,
            i <= s@.len(),
            forall|j: int| 0 <= j < i && #[trigger] is_middle_at(s@, j) ==> middle_ok_at(s@, j),
        decreases s@.len() - i,
    {
        if is_middle_exec(&s, i) && !middle_ok_exec(&s, i) {
            assert(is_middle_at(s@, i as int));
            return false;
        }
        i = i + 1;
    }
    assert forall|j: int| #[trigger] is_middle_at(s@, j) implies middle_ok_at(s@, j) by {
        assert(0 <= j < s@.len());
    }
    true
}

/// A heading being read: its start and the text gathered so far.
pub struct Heading {
    pub level: u8,
    pub frag: Option<String>,
    pub class: Vec<String>,
    pub attrs: Vec<(String, Option<String>)>,
    pub markup: String,
    pub plain_text: String,
}

/// A fenced code block being read.
pub struct Code {
    pub lang: String,
    pub source: String,
}

/// The state of the rendering between two events.
pub struct MdState {
    pub heading: Option<Heading>,
    pub in_blockquote: bool,
    pub code: Option<Code>,
}

/// A heading being read, its gathered texts by their characters.
pub struct HeadingV {
    pub level: u8,
    pub frag: Option<String>,
    pub class: Vec<String>,
    pub attrs: Vec<(String, Option<String>)>,
    pub markup: Seq<char>,
    pub plain: Seq<char>,
}

/// A code block being read, by its characters.
pub struct CodeV {
    pub lang: Seq<char>,
    pub source: Seq<char>,
}

/// The state of the rendering, its texts by their characters.
pub struct MdStateV {
    pub heading: Option<HeadingV>,
    pub in_blockquote: bool,
    pub code: Option<CodeV>,
}

impl View for MdState {
    type V = MdStateV;

    open spec fn view(&self) -> MdStateV {
        MdStateV {
            heading: match self.heading {
                Some(h) => Some(
                    HeadingV {
                        level: h.level,
                        frag: h.frag,
                        class: h.class,
                        attrs: h.attrs,
                        markup: h.markup@,
                        plain: h.plain_text@,
                    },
                ),
                None => None,
            },
            in_blockquote: self.in_blockquote,
            code: match self.code {
                Some(c) => Some(CodeV { lang: c.lang@, source: c.source@ }),
                None => None,
            },
        }
    }
}

/// The state before the first event.
pub open spec fn md_start() -> MdStateV {
    MdStateV { heading: None, in_blockquote: false, code: None }
}

/// The `style` of a heading: `key:value;` for each attribute with a value.
pub open spec fn style_of(attrs: Seq<(String, Option<String>)>) -> Seq<char>
    decreases attrs.len(),
{
    if attrs.len() == 0 {
        Seq::<char>::empty()
    } else {
        style_of(attrs.drop_last()) + match attrs.last().1 {
            Some(v) => attrs.last().0@ + ":"@ + v@ + ";"@,
            None => Seq::<char>::empty(),
        }
    }
}

/// The HTML of a finished heading: its anchor is its `#id`, or else the slug
/// of its plain text; its classes follow `anchor`.
pub open spec fn heading_html(h: HeadingV) -> Seq<char> {
    let tag = "h"@ + decimal(h.level as int);
    let anchor = match h.frag {
        Some(f) => f@,
        None => slug_of(h.plain),
    };
    let class = "anchor "@ + joined(views(h.class@), " "@);
    "<"@ + tag + " id=\""@ + anchor + "\" class=\""@ + class + "\" style=\""@ + style_of(h.attrs@)
        + "\">"@ + h.markup + "</"@ + tag + ">"@
}

/// The HTML of a finished fenced code block: a labelled block around the
/// source.
pub open spec fn code_html(c: CodeV) -> Seq<char> {
    let label = if c.lang.len() > 0 {
        "<div class=\"language-tag\">"@ + c.lang + "</div>"@
    } else {
        Seq::<char>::empty()
    };
    "<div class=\"code-block\">"@ + label + "<pre class=\"code-block-inner\" data-lang="@
        + debug_quoted(c.lang) + ">"@ + c.source + "</pre></div>"@
}

/// One event of the rendering: the state after it, and its edit.
pub open spec fn md_step(st: MdStateV, ev: MdEvent) -> (MdStateV, MdEditV) {
    let empty = Seq::<char>::empty();
    match ev {
        MdEvent::HeadingStart { level, id, classes, attrs } => {
            if !st.in_blockquote {
                (
                    MdStateV {
                        heading: Some(
                            HeadingV {
                                level,
                                frag: id,
                                class: classes,
                                attrs,
                                markup: empty,
                                plain: empty,
                            },
                        ),
                        ..st
                    },
                    MdEditV::Text(empty),
                )
            } else {
                (st, MdEditV::Keep)
            }
        },
        MdEvent::BlockQuoteStart => (MdStateV { in_blockquote: true, ..st }, MdEditV::Keep),
        MdEvent::FencedCodeStart(lang) => (
            MdStateV { code: Some(CodeV { lang: lang@, source: empty }), ..st },
            MdEditV::Text(empty),
        ),
        MdEvent::Code(c) => match st.heading {
            Some(h) => (
                MdStateV {
                    heading: Some(
                        HeadingV {
                            markup: h.markup + "<code>"@ + c@ + "</code>"@,
                            plain: h.plain + c@,
                            ..h
                        },
                    ),
                    ..st
                },
                MdEditV::Text(empty),
            ),
            None => (st, MdEditV::Keep),
        },
        MdEvent::InlineMath(c) => (st, MdEditV::Html(math_html(c@, false))),
        MdEvent::DisplayMath(c) => (st, MdEditV::Html(math_html(c@, true))),
        MdEvent::HeadingEnd => match st.heading {
            Some(h) => (MdStateV { heading: None, ..st }, MdEditV::Html(heading_html(h))),
            None => (st, MdEditV::Keep),
        },
        MdEvent::CodeBlockEnd => match st.code {
            Some(c) => (MdStateV { code: None, ..st }, MdEditV::Html(code_html(c))),
            None => (st, MdEditV::Keep),
        },
        MdEvent::BlockQuoteEnd => (MdStateV { in_blockquote: false, ..st }, MdEditV::Keep),
        MdEvent::Text(t) => match st.code {
            Some(c) => (
                MdStateV { code: Some(CodeV { source: c.source + t@, ..c }), ..st },
                MdEditV::Text(empty),
            ),
            None => match st.heading {
                Some(h) => (
                    MdStateV {
                        heading: Some(HeadingV { markup: h.markup + t@, plain: h.plain + t@, ..h }),
                        ..st
                    },
                    MdEditV::Text(empty),
                ),
                None => (st, MdEditV::Keep),
            },
        },
        MdEvent::Other => (st, MdEditV::Keep),
    }
}

/// A block quote's end leaves the quote: whatever the state, the end of a
/// quote keeps the heading and code being read and makes no edit, and a
/// heading that starts right after it is read for its anchor, as at the top
/// level, with its level, id, classes and attributes.
pub proof fn law_heading_after_quote_is_anchored(
    st: MdStateV,
    level: u8,
    id: Option<String>,
    classes: Vec<String>,
    attrs: Vec<(String, Option<String>)>,
)
    ensures
        !md_step(st, MdEvent::BlockQuoteEnd).0.in_blockquote,
        md_step(st, MdEvent::BlockQuoteEnd).0.heading == st.heading,
        md_step(st, MdEvent::BlockQuoteEnd).0.code == st.code,
        md_step(st, MdEvent::BlockQuoteEnd).1 == MdEditV::Keep,
        ({
            let after = md_step(st, MdEvent::BlockQuoteEnd).0;
            let (next, edit) = md_step(after, MdEvent::HeadingStart { level, id, classes, attrs });
            &&& next.heading matches Some(h)
            &&& h.level == level && h.frag == id && h.class == classes && h.attrs == attrs
            &&& h.markup.len() == 0 && h.plain.len() == 0
            &&& edit == MdEditV::Text(Seq::empty())
        }),
{
}

/// The state after a run of events and the edits made on the way.
pub open spec fn md_run(evs: Seq<MdEvent>) -> (MdStateV, Seq<MdEditV>)
    decreases evs.len(),
{
    if evs.len() == 0 {
        (md_start(), Seq::<MdEditV>::empty())
    } else {
        let (st, eds) = md_run(evs.drop_last());
        let (st2, e) = md_step(st, evs.last());
        (st2, eds.push(e))
    }
}

/// The HTML of a Markdown text: the HTML writer's bytes for its edited events,
/// read as UTF-8, or a note where they are not UTF-8.
pub open spec fn md_html(input: Seq<char>) -> Seq<char> {
    let bytes = rendered_html(input, md_run(markdown_events_of(input)).1);
    if valid_utf8(bytes) {
        decode_utf8(bytes)
    } else {
        "Failed to render Markdown"@
    }
}

/// The `style` of a heading, from its attributes.
fn heading_style(attrs: &Vec<(String, Option<String>)>) -> (r: String)
    ensures
        r@ == style_of(attrs@),
{
    let mut style = String::new();
    let mut i: usize = 0;
    while i < attrs.len()
        invariant
            i <= attrs@.len(),
            style@ == style_of(attrs@.take(i as int)),
        decreases attrs@.len() - i,
    {
        assert(attrs@.take(i + 1).drop_last() =~= attrs@.take(i as int));
        let a = &attrs[i];
        match &a.1 {
            Some(v) => {
                style.append(a.0.as_str());
                style.append(":");
                style.append(v.as_str());
                style.append(";");
            },
            None => {
                assert(style@ + Seq::<char>::empty() =~= style@);
            },
        }
        i = i + 1;
    }
    assert(attrs@.take(attrs@.len() as int) =~= attrs@);
    style
}

/// The HTML of a finished heading.
fn finish_heading(h: Heading) -> (r: String)
    ensures
        r@ == heading_html(
            HeadingV {
                level: h.level,
                frag: h.frag,
                class: h.class,
                attrs: h.attrs,
                markup: h.markup@,
                plain: h.plain_text@,
            },
        ),
{
    let level = int_text(h.level as i64);
    let mut tag = String::from_str("h");
    tag.append(level.as_str());
    let anchor = match h.frag {
        Some(f) => f,
        None => slugify(h.plain_text.as_str()),
    };
    let mut class = String::from_str("anchor ");
    let classes = join(&h.class, " ");
    class.append(classes.as_str());
    let style = heading_style(&h.attrs);
    let mut out = String::from_str("<");
    out.append(tag.as_str());
    out.append(" id=\"");
    out.append(anchor.as_str());
    out.append("\" class=\"");
    out.append(class.as_str());
    out.append("\" style=\"");
    out.append(style.as_str());
    out.append("\">");
    out.append(h.markup.as_str());
    out.append("</");
    out.append(tag.as_str());
    out.append(">");
    out
}

/// The HTML of a finished fenced code block.
fn finish_code(c: Code) -> (r: String)
    ensures
        r@ == code_html(CodeV { lang: c.lang@, source: c.source@ }),
{
    let mut out = String::from_str("<div class=\"code-block\">");
    if !c.lang.as_str().is_empty() {
        out.append("<div class=\"language-tag\">");
        out.append(c.lang.as_str());
        out.append("</div>");
    } else {
        assert(out@ + Seq::<char>::empty() =~= out@);
    }
    out.append("<pre class=\"code-block-inner\" data-lang=");
    let q = debug_str(c.lang.as_str());
    out.append(q.as_str());
    out.append(">");
    out.append(c.source.as_str());
    out.append("</pre></div>");
    out
}

/// The HTML of math.
fn render_math(c: &str, block: bool) -> (r: String)
    ensures
        r@ == math_html(c@, block),
{
    if !middles_safe(c) {
        let mut out = String::from_str("Render math ");
        out.append(c);
        out.append(" failed: ");
        out.append(MIDDLE_NOTE);
        return out;
    }
    match latex_to_mathml(c, block) {
        Ok(m) => m,
        Err(e) => {
            let mut out = String::from_str("Render math ");
            out.append(c);
            out.append(" failed: ");
            out.append(e.as_str());
            out
        },
    }
}

/// One event of the rendering: the state moves on and the event's edit comes out.
pub fn md_step_exec(st: &mut MdState, ev: MdEvent) -> (r: MdEdit)
    ensures
        (final(st)@, r@) == md_step(old(st)@, ev),
{
    match ev {
        MdEvent::HeadingStart { level, id, classes, attrs } => {
            if !st.in_blockquote {
                st.heading = Some(
                    Heading {
                        level,
                        frag: id,
                        class: classes,
                        attrs,
                        markup: String::new(),
                        plain_text: String::new(),
                    },
                );
                MdEdit::Text(String::new())
            } else {
                MdEdit::Keep
            }
        },
        MdEvent::BlockQuoteStart => {
            st.in_blockquote = true;
            MdEdit::Keep
        },
        MdEvent::FencedCodeStart(lang) => {
            st.code = Some(Code { lang, source: String::new() });
            MdEdit::Text(String::new())
        },
        MdEvent::Code(c) => {
            match st.heading.take() {
                Some(mut h) => {
                    h.markup.append("<code>");
                    h.markup.append(c.as_str());
                    h.markup.append("</code>");
                    h.plain_text.append(c.as_str());
                    st.heading = Some(h);
                    MdEdit::Text(String::new())
                },
                None => MdEdit::Keep,
            }
        },
        MdEvent::InlineMath(c) => MdEdit::Html(render_math(c.as_str(), false)),
        MdEvent::DisplayMath(c) => MdEdit::Html(render_math(c.as_str(), true)),
        MdEvent::HeadingEnd => {
            match st.heading.take() {
                Some(h) => MdEdit::Html(finish_heading(h)),
                None => MdEdit::Keep,
            }
        },
        MdEvent::CodeBlockEnd => {
            match st.code.take() {
                Some(c) => MdEdit::Html(finish_code(c)),
                None => MdEdit::Keep,
            }
        },
        MdEvent::BlockQuoteEnd => {
            st.in_blockquote = false;
            MdEdit::Keep
        },
        MdEvent::Text(t) => {
            match st.code.take() {
                Some(mut c) => {
                    c.source.append(t.as_str());
                    st.code = Some(c);
                    MdEdit::Text(String::new())
                },
                None => {
                    match st.heading.take() {
                        Some(mut h) => {
                            h.markup.append(t.as_str());
                            h.plain_text.append(t.as_str());
                            st.heading = Some(h);
                            MdEdit::Text(String::new())
                        },
                        None => MdEdit::Keep,
                    }
                },
            }
        },
        MdEvent::Other => MdEdit::Keep,
    }
}

/// markdown to html
/// : latex to html
/// Input: string
/// Output: {html: string}
pub fn md2html(input: &str) -> (r: HTMLOutput)
    ensures
        r.html@ == md_html(input@),
{
    let mut events = markdown_events(input);
    let ghost evs = events@;
    let n = events.len();
    // the events in reverse, so that popping gives them in order
    let mut pending: Vec<MdEvent> = Vec::new();
    while events.len() > 0
        invariant
            pending@.len() + events@.len() == n,
            n == evs.len(),
            forall|k: int| 0 <= k < events@.len() ==> #[trigger] events@[k] == evs[k],
            forall|k: int| 0 <= k < pending@.len() ==> #[trigger] pending@[k] == evs[n - 1 - k],
        decreases events.len(),
    {
        let ev = events.pop().unwrap();
        pending.push(ev);
    }
    let mut st = MdState { heading: None, in_blockquote: false, code: None };
    let mut edits: Vec<MdEdit> = Vec::new();
    let mut i: usize = 0;
    while i < n
        invariant
            i <= n,
            n == evs.len(),
            pending@.len() == n - i,
            forall|k: int| 0 <= k < pending@.len() ==> #[trigger] pending@[k] == evs[n - 1 - k],
            (st@, edits_view(edits@)) == md_run(evs.take(i as int)),
        decreases n - i,
    {
        let ev = pending.pop().unwrap();
        assert(ev == evs[i as int]);
        assert(evs.take(i + 1).drop_last() =~= evs.take(i as int));
        let ghost eds = edits@;
        let e = md_step_exec(&mut st, ev);
        edits.push(e);
        assert(edits_view(edits@) =~= edits_view(eds).push(e@));
        i = i + 1;
    }
    assert(evs.take(n as int) =~= evs);
    let bytes = render_markdown(input, &edits);
    let html = match utf8_text(bytes) {
        Some(s) => s,
        None => String::from_str("Failed to render Markdown"),
    };
    HTMLOutput { html }
}

} // verus!
