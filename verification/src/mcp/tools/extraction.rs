//! Extraction tools: Markdown, structured data, links, PDF and screenshots.
use vstd::prelude::*;

use super::{Tool, ToolCall};
use super::catalog::{ToolKind, ToolSchema};
use base64::Engine;
use crate::dom::{ElementView, elements_view, opt_view, select_elements, selected_elements, strings_view};
use crate::text::{chars_of, first_chars, owned, string_of, take_chars, trim, trim_chars, word_count, words};

verus! {

/// The `browser_markdown` tool.
pub struct BrowserMarkdownTool;

impl BrowserMarkdownTool {
    pub fn new() -> Self {
        BrowserMarkdownTool
    }
}

impl Tool for BrowserMarkdownTool {
    open spec fn kind(&self) -> ToolKind {
        ToolKind::Markdown
    }

    fn name(&self) -> (r: &'static str) {
        ToolKind::Markdown.name()
    }

    fn description(&self) -> (r: &'static str) {
        ToolKind::Markdown.description()
    }

    fn input_schema(&self) -> (r: ToolSchema) {
        ToolKind::Markdown.input_schema()
    }

    fn call(&self, _arguments: &serde_json::Value) -> (r: ToolCall) {
        ToolCall::routed()
    }
}

/// The `browser_extract` tool.
pub struct BrowserExtractTool;

impl BrowserExtractTool {
    pub fn new() -> Self {
        BrowserExtractTool
    }
}

impl Tool for BrowserExtractTool {
    open spec fn kind(&self) -> ToolKind {
        ToolKind::Extract
    }

    fn name(&self) -> (r: &'static str) {
        ToolKind::Extract.name()
    }

    fn description(&self) -> (r: &'static str) {
        ToolKind::Extract.description()
    }

    fn input_schema(&self) -> (r: ToolSchema) {
        ToolKind::Extract.input_schema()
    }

    fn call(&self, _arguments: &serde_json::Value) -> (r: ToolCall) {
        ToolCall::routed()
    }
}

/// The `browser_links` tool.
pub struct BrowserLinksTool;

impl BrowserLinksTool {
    pub fn new() -> Self {
        BrowserLinksTool
    }
}

impl Tool for BrowserLinksTool {
    open spec fn kind(&self) -> ToolKind {
        ToolKind::Links
    }

    fn name(&self) -> (r: &'static str) {
        ToolKind::Links.name()
    }

    fn description(&self) -> (r: &'static str) {
        ToolKind::Links.description()
    }

    fn input_schema(&self) -> (r: ToolSchema) {
        ToolKind::Links.input_schema()
    }

    fn call(&self, _arguments: &serde_json::Value) -> (r: ToolCall) {
        ToolCall::routed()
    }
}

/// The `browser_pdf` tool.
pub struct BrowserPdfTool;

impl BrowserPdfTool {
    pub fn new() -> Self {
        BrowserPdfTool
    }
}

impl Tool for BrowserPdfTool {
    open spec fn kind(&self) -> ToolKind {
        ToolKind::Pdf
    }

    fn name(&self) -> (r: &'static str) {
        ToolKind::Pdf.name()
    }

    fn description(&self) -> (r: &'static str) {
        ToolKind::Pdf.description()
    }

    fn input_schema(&self) -> (r: ToolSchema) {
        ToolKind::Pdf.input_schema()
    }

    fn call(&self, _arguments: &serde_json::Value) -> (r: ToolCall) {
        ToolCall::routed()
    }
}

/// The `browser_screenshot` tool.
pub struct BrowserScreenshotTool;

impl BrowserScreenshotTool {
    pub fn new() -> Self {
        BrowserScreenshotTool
    }
}

impl Tool for BrowserScreenshotTool {
    open spec fn kind(&self) -> ToolKind {
        ToolKind::Screenshot
    }

    fn name(&self) -> (r: &'static str) {
        ToolKind::Screenshot.name()
    }

    fn description(&self) -> (r: &'static str) {
        ToolKind::Screenshot.description()
    }

    fn input_schema(&self) -> (r: ToolSchema) {
        ToolKind::Screenshot.input_schema()
    }

    fn call(&self, _arguments: &serde_json::Value) -> (r: ToolCall) {
        ToolCall::routed()
    }
}


/// The first selected element's text, if any element was selected.
pub open spec fn first_selected_text(sel: Option<Seq<ElementView>>) -> Option<Seq<char>> {
    match sel {
        Some(v) => if v.len() > 0 {
            Some(v[0].text)
        } else {
            None
        },
        None => None,
    }
}

/// A plain extraction of a page: its title, the number of words of its
/// body text and the first 500 characters of that text.
pub struct ExtractSummary {
    pub title: String,
    pub word_count: usize,
    pub snippet: String,
}

/// The text of the first element matching `selector`, if any.
fn first_selected(html: &str, selector: &str) -> (r: Option<String>)
    ensures
        r matches Some(t) ==> first_selected_text(selected_elements(html@, selector@, Seq::empty()))
            == Some(t@),
        r is None ==> first_selected_text(selected_elements(html@, selector@, Seq::empty())) is None,
{
    let none: Vec<&str> = Vec::new();
    proof {
        assert(strings_view(none@) =~= Seq::<Seq<char>>::empty());
    }
    match select_elements(html, selector, none.as_slice()) {
        Some(v) => if v.len() > 0 {
            assert(elements_view(v@)[0] == v@[0]@);
            Some(v[0].text.clone())
        } else {
            None
        },
        None => None,
    }
}

/// The extraction without a schema: the text of the page's first `title`
/// (`No Title` without one), and the word count and first 500 characters
/// of its first `body`'s text (empty without one).
pub fn extract_summary(html: &str) -> (r: ExtractSummary)
    ensures
        ({
            let title = first_selected_text(selected_elements(html@, "title"@, Seq::empty()));
            let body = match first_selected_text(selected_elements(html@, "body"@, Seq::empty())) {
                Some(b) => b,
                None => Seq::empty(),
            };
            &&& r.title@ == match title {
                Some(t) => t,
                None => "No Title"@,
            }
            &&& r.word_count == words(body).len()
            &&& r.snippet@ == take_chars(body, 500)
        }),
{
    let title = match first_selected(html, "title") {
        Some(t) => t,
        None => owned("No Title"),
    };
    let body = match first_selected(html, "body") {
        Some(b) => b,
        None => String::new(),
    };
    let n = word_count(body.as_str());
    let snippet = first_chars(body.as_str(), 500);
    ExtractSummary { title, word_count: n, snippet }
}

/// The links of a page: the `href` and trimmed text of each `a` element
/// that has an `href`.
pub open spec fn link_list(els: Seq<ElementView>) -> Seq<(Seq<char>, Seq<char>)>
    decreases els.len(),
{
    if els.len() == 0 {
        Seq::empty()
    } else {
        let before = link_list(els.drop_last());
        match els.last().attrs[0] {
            Some(h) => before.push((h, trim(els.last().text))),
            None => before,
        }
    }
}

/// A link of a page.
pub struct PageLink {
    pub url: String,
    pub text: String,
}

/// The links of the page `html`, in document order.
pub fn page_links(html: &str) -> (r: Vec<PageLink>)
    ensures
        r@.map_values(|l: PageLink| (l.url@, l.text@)) == match selected_elements(html@, "a"@, seq!["href"@]) {
            Some(v) => link_list(v),
            None => Seq::empty(),
        },
{
    let names: Vec<&str> = vec!["href"];
    proof {
        assert(strings_view(names@) =~= seq!["href"@]);
    }
    let mut out: Vec<PageLink> = Vec::new();
    match select_elements(html, "a", names.as_slice()) {
        Some(v) => {
            let ghost ev = elements_view(v@);
            let mut i: usize = 0;
            while i < v.len()
                invariant
                    i <= v@.len(),
                    ev == elements_view(v@),
                    forall|j: int| 0 <= j < v@.len() ==> #[trigger] v@[j].attrs@.len() == 1,
                    out@.map_values(|l: PageLink| (l.url@, l.text@)) == link_list(ev.take(i as int)),
                decreases v@.len() - i,
            {
                proof {
                    assert(ev.take(i + 1).drop_last() =~= ev.take(i as int));
                    assert(ev.take(i + 1).last() == v@[i as int]@);
                    assert(v@[i as int]@.attrs[0] == opt_view(v@[i as int].attrs@[0]));
                }
                match &v[i].attrs[0] {
                    Some(h) => {
                        let ghost before = out@.map_values(|l: PageLink| (l.url@, l.text@));
                        let cs = chars_of(v[i].text.as_str());
                        let t = trim_chars(cs.as_slice());
                        out.push(PageLink { url: h.clone(), text: string_of(t.as_slice()) });
                        proof {
                            assert(out@.map_values(|l: PageLink| (l.url@, l.text@)) =~= before.push(
                                (h@, trim(v@[i as int].text@)),
                            ));
                        }
                    },
                    None => {},
                }
                i = i + 1;
            }
            proof {
                assert(ev.take(v@.len() as int) =~= ev);
            }
        },
        None => {
            proof {
                assert(out@.map_values(|l: PageLink| (l.url@, l.text@)) =~= Seq::<(Seq<char>, Seq<char>)>::empty());
            }
        },
    }
    out
}


/// The character of a 6-bit value in the standard base64 alphabet.
pub open spec fn base64_char(v: int) -> char {
    if v < 26 {
        (0x41 + v) as char
    } else if v < 52 {
        (0x61 + v - 26) as char
    } else if v < 62 {
        (0x30 + v - 52) as char
    } else if v == 62 {
        '+'
    } else {
        '/'
    }
}

/// Standard base64 (RFC 4648, padded): each group of three bytes becomes
/// four characters; a final group of one or two bytes is padded with `=`.
pub open spec fn base64_of(b: Seq<u8>) -> Seq<char>
    decreases b.len(),
{
    if b.len() == 0 {
        Seq::empty()
    } else {
        let b0 = b[0] as int;
        let b1 = if b.len() > 1 { b[1] as int } else { 0 };
        let b2 = if b.len() > 2 { b[2] as int } else { 0 };
        let c0 = base64_char(b0 / 4);
        let c1 = base64_char((b0 % 4) * 16 + b1 / 16);
        let c2 = base64_char((b1 % 16) * 4 + b2 / 64);
        let c3 = base64_char(b2 % 64);
        if b.len() == 1 {
            seq![c0, c1, '=', '=']
        } else if b.len() == 2 {
            seq![c0, c1, c2, '=']
        } else {
            seq![c0, c1, c2, c3] + base64_of(b.skip(3))
        }
    }
}

/// Encodes `bytes` with base64's `STANDARD` engine (`Engine::encode`), the
/// padded standard alphabet of RFC 4648; the contract states that encoding.
#[verifier::external_body]
fn base64_standard(bytes: &[u8]) -> (r: String)
    ensures
        r@ == base64_of(bytes@),
{
    base64::engine::general_purpose::STANDARD.encode(bytes)
}

/// A capture (a screenshot or a PDF) as the tools send it: its bytes in
/// standard base64.
pub fn encode_capture(bytes: &[u8]) -> (r: String)
    ensures
        r@ == base64_of(bytes@),
{
    base64_standard(bytes)
}

/// The links of a page are the `href` and trimmed text of each selected
/// element that has an `href`, in document order.
pub proof fn lemma_links_in_order(els: Seq<ElementView>)
    ensures
        link_list(els) == els.filter(|e: ElementView| e.attrs[0] is Some).map_values(
            |e: ElementView| (e.attrs[0]->Some_0, trim(e.text)),
        ),
    decreases els.len(),
{
    reveal(Seq::filter);
    let p = |e: ElementView| e.attrs[0] is Some;
    let f = |e: ElementView| (e.attrs[0]->Some_0, trim(e.text));
    if els.len() > 0 {
        lemma_links_in_order(els.drop_last());
        let prev = els.drop_last().filter(p);
        if p(els.last()) {
            assert(els.filter(p) == prev.push(els.last()));
            assert(prev.push(els.last()).map_values(f) =~= prev.map_values(f).push(f(els.last())));
        }
    } else {
        assert(els.filter(p).map_values(f) =~= Seq::<(Seq<char>, Seq<char>)>::empty());
    }
}

/// Base64 turns every started group of three bytes into four characters.
pub proof fn lemma_base64_length(b: Seq<u8>)
    ensures
        base64_of(b).len() == 4 * ((b.len() + 2) / 3),
    decreases b.len(),
{
    if b.len() > 2 {
        lemma_base64_length(b.skip(3));
        assert(b.skip(3).len() == b.len() - 3);
        assert((b.len() + 2) / 3 == (b.len() - 3 + 2) / 3 + 1);
    }
}

} // verus!
