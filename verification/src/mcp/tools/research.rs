//! The parallel research tool.
use vstd::prelude::*;

use super::{Tool, ToolCall};
use super::catalog::{ToolKind, ToolSchema};
use crate::extraction::{html2md_parse, markdown_of};
use crate::text::{
    chars_of, copy_range, find_chars, first_chars, first_occurrence, has_prefix, has_sub, owned, str_equal,
    string_of, take_chars,
};

verus! {

/// The `browser_research` tool.
pub struct BrowserResearchTool;

impl BrowserResearchTool {
    pub fn new() -> Self {
        BrowserResearchTool
    }
}

impl Tool for BrowserResearchTool {
    open spec fn kind(&self) -> ToolKind {
        ToolKind::Research
    }

    fn name(&self) -> (r: &'static str) {
        ToolKind::Research.name()
    }

    fn description(&self) -> (r: &'static str) {
        ToolKind::Research.description()
    }

    fn input_schema(&self) -> (r: ToolSchema) {
        ToolKind::Research.input_schema()
    }

    fn call(&self, _arguments: &serde_json::Value) -> (r: ToolCall) {
        ToolCall::RunResearch
    }
}


/// `s` from the end of the first occurrence of `t` on, when `t` occurs.
pub open spec fn after_first(s: Seq<char>, t: Seq<char>) -> Seq<char> {
    s.subrange(first_occurrence(s, t) + t.len(), s.len() as int)
}

/// `s` up to the first occurrence of `t`, or all of `s`.
pub open spec fn before_first(s: Seq<char>, t: Seq<char>) -> Seq<char> {
    if has_sub(s, t) {
        s.take(first_occurrence(s, t))
    } else {
        s
    }
}

/// The title a research run reads from raw HTML: the text after the first
/// `<title>`, up to the next `<title>` and then up to the first `</title>`;
/// `Page` when there is no `<title>`.
pub open spec fn naive_title(html: Seq<char>) -> Seq<char> {
    if has_sub(html, "<title>"@) {
        before_first(before_first(after_first(html, "<title>"@), "<title>"@), "</title>"@)
    } else {
        "Page"@
    }
}

/// The part of `s` up to the first occurrence of `t`.
fn before_first_of(s: &[char], t: &[char]) -> (r: Vec<char>)
    ensures
        r@ == before_first(s@, t@),
{
    match find_chars(s, t) {
        Some(i) => {
            let r = copy_range(s, 0, i);
            assert(s@.subrange(0, i as int) =~= s@.take(i as int));
            r
        },
        None => crate::text::clone_chars(s),
    }
}

/// The title of a page fetched by the research tool.
pub fn research_page_title(html: &str) -> (r: String)
    ensures
        r@ == naive_title(html@),
{
    let h = chars_of(html);
    let open = chars_of("<title>");
    let close = chars_of("</title>");
    match find_chars(h.as_slice(), open.as_slice()) {
        Some(i) => {
            proof {
                reveal_strlit("<title>");
                assert(open@.len() == 7);
                assert(h@.len() >= i + 7);
                assert(h@.subrange(i + 7, h@.len() as int) == after_first(html@, "<title>"@));
            }
            assert(i + 7 <= h.len());
            let start: usize = i + 7;
            let rest = copy_range(h.as_slice(), start, h.len());
            let piece = before_first_of(rest.as_slice(), open.as_slice());
            let title = before_first_of(piece.as_slice(), close.as_slice());
            string_of(title.as_slice())
        },
        None => owned("Page"),
    }
}

/// What the research tool extracts of a page: its Markdown in `markdown`
/// mode, else its first 2000 characters.
pub open spec fn research_content(html: Seq<char>, mode: Seq<char>) -> Seq<char> {
    if mode == "markdown"@ {
        markdown_of(html)
    } else {
        take_chars(html, 2000)
    }
}

/// The content the research tool keeps of a page.
pub fn research_page_content(html: &str, mode: &str) -> (r: String)
    ensures
        r@ == research_content(html@, mode@),
{
    if str_equal(mode, "markdown") {
        html2md_parse(html)
    } else {
        first_chars(html, 2000)
    }
}

/// The research tool's extraction mode: the one given, else `markdown`.
pub fn research_mode(mode: Option<&str>) -> (r: &str)
    ensures
        mode matches Some(m) ==> r@ == m@,
        mode is None ==> r@ == "markdown"@,
{
    match mode {
        Some(m) => m,
        None => "markdown",
    }
}

/// The research tool's concurrency: the one given, else eight.
pub fn research_concurrency(concurrency: Option<u64>) -> (r: u64)
    ensures
        r == match concurrency {
            Some(c) => c,
            None => 8,
        },
{
    match concurrency {
        Some(c) => c,
        None => 8,
    }
}

/// The title read from raw HTML is the start of the text after the first
/// `<title>`, and holds neither `<title>` nor `</title>`; a page without
/// `<title>` is titled `Page`.
pub proof fn lemma_naive_title_piece(html: Seq<char>)
    ensures
        has_sub(html, "<title>"@) ==> {
            let t = naive_title(html);
            &&& has_prefix(after_first(html, "<title>"@), t)
            &&& !has_sub(t, "<title>"@)
            &&& !has_sub(t, "</title>"@)
        },
        !has_sub(html, "<title>"@) ==> naive_title(html) == "Page"@,
{
    reveal_strlit("<title>");
    reveal_strlit("</title>");
    assert("<title>"@.len() == 7 && "</title>"@.len() == 8);
    if has_sub(html, "<title>"@) {
        let a = after_first(html, "<title>"@);
        let b = before_first(a, "<title>"@);
        let c = before_first(b, "</title>"@);
        if has_sub(a, "<title>"@) {
            crate::text::lemma_first_occurrence(a, "<title>"@);
        } else {
            assert(a.take(a.len() as int) =~= a);
        }
        if has_sub(b, "</title>"@) {
            crate::text::lemma_first_occurrence(b, "</title>"@);
            let f = first_occurrence(b, "</title>"@);
            if has_sub(c, "<title>"@) {
                let i = choose|i: int| crate::text::occurs_at(c, "<title>"@, i);
                assert(c.len() == f);
                assert(c.subrange(i, i + 7) =~= b.subrange(i, i + 7));
                assert(crate::text::occurs_at(b, "<title>"@, i));
            }
        }
        assert(b.len() <= a.len());
        assert(c.len() <= b.len());
        assert(a.subrange(0, c.len() as int) =~= c);
    }
}

} // verus!
