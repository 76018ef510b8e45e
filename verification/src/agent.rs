//! The research agent: what it makes of each fetched page in a parallel
//! research run, and the sources of a deep research search.
use vstd::prelude::*;

use crate::dom::{ElementView, select_elements, selected_elements, strings_view};
use crate::extraction::{html2md_parse, markdown_of};
use crate::hidden_gems::firecrawl_extraction::{nonempty_trimmed, nonempty_trimmed_texts};
use crate::text::{chars_of, has_prefix, owned, starts_with_chars, str_equal, string_of, trim, trim_chars};

verus! {

/// How a research run extracts each page.
#[derive(Clone, Copy, PartialEq, Eq, Structural, Debug)]
pub enum ExtractMode {
    Markdown,
    Links,
    Raw,
}

/// The extraction mode a mode name asks for: `markdown`, `links`, anything
/// else the raw page.
pub open spec fn mode_named(name: Seq<char>) -> ExtractMode {
    if name == "markdown"@ {
        ExtractMode::Markdown
    } else if name == "links"@ {
        ExtractMode::Links
    } else {
        ExtractMode::Raw
    }
}

/// The extraction mode named `name`.
pub fn extract_mode(name: &str) -> (m: ExtractMode)
    ensures
        m == mode_named(name@),
{
    if str_equal(name, "markdown") {
        ExtractMode::Markdown
    } else if str_equal(name, "links") {
        ExtractMode::Links
    } else {
        ExtractMode::Raw
    }
}

/// What the `{:?}` formatting of a list of strings gives.
pub uninterp spec fn debug_listing(items: Seq<Seq<char>>) -> Seq<char>;

/// Formats `items` with `format!("{:?}", ..)` (the `Debug` of a `Vec` of
/// `String`). The contract claims only that the result is `debug_listing`
/// of the items; the escaping rules are not stated.
#[verifier::external_body]
fn debug_list(items: &Vec<String>) -> (r: String)
    ensures
        r@ == debug_listing(items@.map_values(|s: String| s@)),
{
    format!("{:?}", items)
}

/// The `href` of every selected element that has one, in order.
pub open spec fn hrefs(els: Seq<ElementView>) -> Seq<Seq<char>>
    decreases els.len(),
{
    if els.len() == 0 {
        Seq::empty()
    } else {
        let before = hrefs(els.drop_last());
        match els.last().attrs[0] {
            Some(h) => before.push(h),
            None => before,
        }
    }
}

/// The links of a page: the `href` of each `a` element that has one.
pub open spec fn page_links(html: Seq<char>) -> Seq<Seq<char>> {
    match selected_elements(html, "a"@, seq!["href"@]) {
        Some(v) => hrefs(v),
        None => Seq::empty(),
    }
}

/// The title a research run gives a page: its first `title` element's
/// text, trimmed, or `Page: ` and the URL when it has none.
pub open spec fn research_title(url: Seq<char>, html: Seq<char>) -> Seq<char> {
    match selected_elements(html, "title"@, Seq::empty()) {
        Some(v) => if v.len() > 0 {
            trim(v[0].text)
        } else {
            "Page: "@ + url
        },
        None => "Page: "@ + url,
    }
}

/// What a research run extracts of a page: its Markdown, the listing of
/// its links, or its first 2000 characters.
pub open spec fn research_extract(mode: ExtractMode, html: Seq<char>) -> Seq<char> {
    match mode {
        ExtractMode::Markdown => markdown_of(html),
        ExtractMode::Links => debug_listing(page_links(html)),
        ExtractMode::Raw => if html.len() > 2000 {
            html.take(2000)
        } else {
            html
        },
    }
}

/// What a research run makes of one fetched page.
pub struct ResearchPage {
    pub title: String,
    pub extracted: String,
}

/// What a deep research search found: the sources (the search result
/// URLs, or two fallback sites) and how many results were taken.
pub struct ResearchSources {
    pub sources: Vec<String>,
    pub pages_visited: usize,
}

/// The deep research sources: the first `max_pages` non-empty result URL
/// texts, or `duckduckgo.com` and `wikipedia.org` when there are none.
pub open spec fn sources_of(found: Seq<Seq<char>>, max_pages: nat) -> Seq<Seq<char>> {
    let taken = if found.len() > max_pages {
        found.take(max_pages as int)
    } else {
        found
    };
    if taken.len() == 0 {
        seq!["duckduckgo.com"@, "wikipedia.org"@]
    } else {
        taken
    }
}

/// The result URL texts of a search results page: the non-empty trimmed
/// texts of its `.result__url` elements.
pub open spec fn result_urls(html: Seq<char>) -> Seq<Seq<char>> {
    match selected_elements(html, ".result__url"@, Seq::empty()) {
        Some(v) => nonempty_trimmed(v),
        None => Seq::empty(),
    }
}


/// The UTF-8 encoding of a character.
pub open spec fn utf8_encode(c: char) -> Seq<u8> {
    let u = c as u32;
    if u < 0x80 {
        seq![u as u8]
    } else if u < 0x800 {
        seq![(0xC0 | (u >> 6)) as u8, (0x80 | (u & 0x3F)) as u8]
    } else if u < 0x10000 {
        seq![(0xE0 | (u >> 12)) as u8, (0x80 | ((u >> 6) & 0x3F)) as u8, (0x80 | (u & 0x3F)) as u8]
    } else {
        seq![
            (0xF0 | (u >> 18)) as u8,
            (0x80 | ((u >> 12) & 0x3F)) as u8,
            (0x80 | ((u >> 6) & 0x3F)) as u8,
            (0x80 | (u & 0x3F)) as u8,
        ]
    }
}

/// The UTF-8 bytes of a string.
pub open spec fn utf8_bytes(s: Seq<char>) -> Seq<u8>
    decreases s.len(),
{
    if s.len() == 0 {
        Seq::empty()
    } else {
        utf8_bytes(s.drop_last()) + utf8_encode(s.last())
    }
}

/// The bytes a URL carries as they are: ASCII letters and digits, `-`,
/// `.`, `_` and `~`.
pub open spec fn url_safe(b: u8) -> bool {
    ||| 0x30 <= b <= 0x39
    ||| 0x41 <= b <= 0x5A
    ||| 0x61 <= b <= 0x7A
    ||| b == 0x2D
    ||| b == 0x2E
    ||| b == 0x5F
    ||| b == 0x7E
}

/// The upper-case hexadecimal digit for `d` (below sixteen).
pub open spec fn hex_digit(d: u8) -> char {
    if d < 10 {
        (0x30 + d) as char
    } else {
        (0x41 - 10 + d) as char
    }
}

/// Percent-encoding: every byte but the URL-safe ones becomes `%` and its
/// two upper-case hexadecimal digits.
pub open spec fn percent_encode(bytes: Seq<u8>) -> Seq<char>
    decreases bytes.len(),
{
    if bytes.len() == 0 {
        Seq::empty()
    } else {
        let b = bytes.last();
        percent_encode(bytes.drop_last()) + if url_safe(b) {
            seq![b as char]
        } else {
            seq!['%', hex_digit(b >> 4), hex_digit(b & 15)]
        }
    }
}

/// Encodes `s` with `urlencoding::encode`, which percent-encodes every byte
/// of its UTF-8 form except ASCII alphanumerics and `-`, `_`, `.`, `~`; the
/// contract states exactly that.
#[verifier::external_body]
fn url_encode(s: &str) -> (r: String)
    ensures
        r@ == percent_encode(utf8_bytes(s@)),
{
    urlencoding::encode(s).into_owned()
}

/// The address of the search for `query`.
pub open spec fn search_url_of(query: Seq<char>) -> Seq<char> {
    "https://html.duckduckgo.com/html/?q="@ + percent_encode(utf8_bytes(query))
}

/// The research agent.
pub struct AgentEnhancer;

impl AgentEnhancer {
    pub fn new() -> Self {
        AgentEnhancer
    }

    /// Whether a research run refuses `url`: local files (`file://`) are
    /// not fetched.
    pub fn rejects_url(&self, url: &str) -> (r: bool)
        ensures
            r == has_prefix(url@, "file://"@),
    {
        let u = chars_of(url);
        let p = chars_of("file://");
        starts_with_chars(u.as_slice(), p.as_slice())
    }

    /// What a research run makes of the page fetched from `url`: its title
    /// and what `mode` extracts of it.
    pub fn research_page(&self, url: &str, html: &str, mode: ExtractMode) -> (r: ResearchPage)
        ensures
            r.title@ == research_title(url@, html@),
            r.extracted@ == research_extract(mode, html@),
    {
        let none: Vec<&str> = Vec::new();
        proof {
            assert(strings_view(none@) =~= Seq::<Seq<char>>::empty());
        }
        let title = match select_elements(html, "title", none.as_slice()) {
            Some(v) => if v.len() > 0 {
                let cs = chars_of(v[0].text.as_str());
                let t = trim_chars(cs.as_slice());
                string_of(t.as_slice())
            } else {
                Self::page_label(url)
            },
            None => Self::page_label(url),
        };
        let extracted = match mode {
            ExtractMode::Markdown => html2md_parse(html),
            ExtractMode::Links => {
                let links = Self::links_of(html);
                debug_list(&links)
            },
            ExtractMode::Raw => {
                let cs = chars_of(html);
                if cs.len() > 2000 {
                    let t = crate::text::copy_range(cs.as_slice(), 0, 2000);
                    proof {
                        assert(cs@.subrange(0, 2000) =~= html@.take(2000));
                    }
                    string_of(t.as_slice())
                } else {
                    owned(html)
                }
            },
        };
        ResearchPage { title, extracted }
    }

    /// `Page: ` followed by `url`.
    fn page_label(url: &str) -> (r: String)
        ensures
            r@ == "Page: "@ + url@,
    {
        let mut cs = chars_of("Page: ");
        let u = chars_of(url);
        crate::text::append_chars(&mut cs, u.as_slice());
        string_of(cs.as_slice())
    }

    /// The links of the page `html`.
    fn links_of(html: &str) -> (r: Vec<String>)
        ensures
            r@.map_values(|s: String| s@) == page_links(html@),
    {
        let names: Vec<&str> = vec!["href"];
        proof {
            assert(strings_view(names@) =~= seq!["href"@]);
        }
        let mut out: Vec<String> = Vec::new();
        match select_elements(html, "a", names.as_slice()) {
            Some(v) => {
                let ghost ev = crate::dom::elements_view(v@);
                let mut i: usize = 0;
                while i < v.len()
                    invariant
                        i <= v@.len(),
                        ev == crate::dom::elements_view(v@),
                        forall|j: int| 0 <= j < v@.len() ==> #[trigger] v@[j].attrs@.len() == 1,
                        out@.map_values(|s: String| s@) == hrefs(ev.take(i as int)),
                    decreases v@.len() - i,
                {
                    proof {
                        assert(ev.take(i + 1).drop_last() =~= ev.take(i as int));
                        assert(ev.take(i + 1).last() == v@[i as int]@);
                        assert(v@[i as int]@.attrs[0] == crate::dom::opt_view(v@[i as int].attrs@[0]));
                    }
                    match &v[i].attrs[0] {
                        Some(h) => {
                            let ghost before = out@.map_values(|s: String| s@);
                            out.push(h.clone());
                            proof {
                                assert(out@.map_values(|s: String| s@) =~= before.push(h@));
                            }
                        },
                        None => {},
                    }
                    i = i + 1;
                }
                proof {
                    assert(ev.take(v@.len() as int) =~= ev);
                }
            },
            None => {
                proof {
                    assert(out@.map_values(|s: String| s@) =~= Seq::<Seq<char>>::empty());
                }
            },
        }
        out
    }

    /// The sources of a deep research search whose results page is `html`
    /// (`None` when the search could not be fetched): at most `max_pages`
    /// result URLs, or the two fallback sites when there are none; and how
    /// many results were taken.
    pub fn research_sources(&self, html: Option<&str>, max_pages: usize) -> (r: ResearchSources)
        ensures
            ({
                let found = match html {
                    Some(h) => result_urls(h@),
                    None => Seq::<Seq<char>>::empty(),
                };
                &&& r.sources@.map_values(|s: String| s@) == sources_of(found, max_pages as nat)
                &&& r.pages_visited == if found.len() > max_pages {
                    max_pages as nat
                } else {
                    found.len()
                }
            }),
    {
        let ghost found = match html {
            Some(h) => result_urls(h@),
            None => Seq::<Seq<char>>::empty(),
        };
        let texts: Vec<String> = match html {
            Some(h) => {
                let none: Vec<&str> = Vec::new();
                proof {
                    assert(strings_view(none@) =~= Seq::<Seq<char>>::empty());
                }
                match select_elements(h, ".result__url", none.as_slice()) {
                    Some(v) => nonempty_trimmed_texts(&v),
                    None => Vec::new(),
                }
            },
            None => Vec::new(),
        };
        assert(texts@.map_values(|s: String| s@) =~= found);
        let mut sources: Vec<String> = Vec::new();
        let mut i: usize = 0;
        while i < texts.len() && i < max_pages
            invariant
                i <= texts@.len(),
                i <= max_pages,
                texts@.map_values(|s: String| s@) == found,
                sources@.map_values(|s: String| s@) == found.take(i as int),
            decreases texts@.len() - i,
        {
            let ghost before = sources@.map_values(|s: String| s@);
            let t = texts[i].clone();
            proof {
                assert(found[i as int] == texts@[i as int]@);
            }
            sources.push(t);
            proof {
                assert(found.take(i + 1) =~= found.take(i as int).push(found[i as int]));
                assert(sources@.map_values(|s: String| s@) =~= found.take(i + 1));
            }
            i = i + 1;
        }
        let pages_visited = i;
        if sources.len() == 0 {
            sources.push(owned("duckduckgo.com"));
            sources.push(owned("wikipedia.org"));
            proof {
                assert(sources@.map_values(|s: String| s@) =~= seq!["duckduckgo.com"@, "wikipedia.org"@]);
            }
        }
        proof {
            if found.len() <= max_pages {
                assert(found.take(found.len() as int) =~= found);
            }
        }
        ResearchSources { sources, pages_visited }
    }

    /// The address of the HTML search results page for `query`.
    pub fn search_url(&self, query: &str) -> (r: String)
        ensures
            r@ == search_url_of(query@),
    {
        let mut cs = chars_of("https://html.duckduckgo.com/html/?q=");
        let e = url_encode(query);
        let ec = chars_of(e.as_str());
        crate::text::append_chars(&mut cs, ec.as_slice());
        string_of(cs.as_slice())
    }

    /// The summary line of a deep research search for `query`.
    pub fn research_summary(&self, query: &str) -> (r: String)
        ensures
            r@ == "Deep research completed for query: "@ + query@,
    {
        let mut cs = chars_of("Deep research completed for query: ");
        let q = chars_of(query);
        crate::text::append_chars(&mut cs, q.as_slice());
        string_of(cs.as_slice())
    }
}

/// The links of a list of elements are the `href`s of those that have one,
/// in document order.
pub proof fn lemma_hrefs_in_order(els: Seq<ElementView>)
    ensures
        hrefs(els) == els.filter(|e: ElementView| e.attrs[0] is Some).map_values(|e: ElementView| e.attrs[0]->Some_0),
    decreases els.len(),
{
    reveal(Seq::filter);
    let p = |e: ElementView| e.attrs[0] is Some;
    let f = |e: ElementView| e.attrs[0]->Some_0;
    if els.len() > 0 {
        lemma_hrefs_in_order(els.drop_last());
        let prev = els.drop_last().filter(p);
        if p(els.last()) {
            assert(els.filter(p) == prev.push(els.last()));
            assert(prev.push(els.last()).map_values(f) =~= prev.map_values(f).push(f(els.last())));
        }
    } else {
        assert(els.filter(p).map_values(f) =~= Seq::<Seq<char>>::empty());
    }
}

/// In raw mode a research run keeps the start of the page: the page itself
/// up to 2000 characters, its first 2000 characters beyond.
pub proof fn lemma_raw_extract_is_prefix(html: Seq<char>)
    ensures
        research_extract(ExtractMode::Raw, html).len() == (if html.len() > 2000 { 2000 } else { html.len() }),
        research_extract(ExtractMode::Raw, html) == html.take(research_extract(ExtractMode::Raw, html).len() as int),
{
    if html.len() <= 2000 {
        assert(html.take(html.len() as int) =~= html);
    }
}

/// Deep research always has a source: the first results, at most
/// `max_pages` of them, in their order; the two fallback sites only when
/// no result is taken.
pub proof fn lemma_sources_taken(found: Seq<Seq<char>>, max_pages: nat)
    ensures
        sources_of(found, max_pages).len() > 0,
        found.len() > 0 && max_pages > 0 ==> sources_of(found, max_pages) == found.take(
            (if found.len() > max_pages { max_pages } else { found.len() }) as int,
        ),
        (found.len() == 0 || max_pages == 0) ==> sources_of(found, max_pages) == seq!["duckduckgo.com"@, "wikipedia.org"@],
{
    if found.len() <= max_pages {
        assert(found.take(found.len() as int) =~= found);
    }
}

} // verus!
