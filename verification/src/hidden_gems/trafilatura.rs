//! Article extraction: the readable text of a page's main content, without
//! scripts, navigation, headers, footers, asides and forms.
use vstd::prelude::*;

use crate::dom::{
    DomNode, DomToken, NodeView, TokenView, first_match_subtree, first_match_tokens,
    select_elements, selected_elements, tokens_view,
};
use crate::text::{
    join, join_chars, owned, split_words, string_of, str_equal, trim, trim_chars, views_of, words,
    chars_of,
};

verus! {

/// The tags whose whole subtree is boilerplate.
pub open spec fn is_skip_tag(name: Seq<char>) -> bool {
    ||| name == "script"@
    ||| name == "style"@
    ||| name == "nav"@
    ||| name == "footer"@
    ||| name == "header"@
    ||| name == "aside"@
    ||| name == "noscript"@
    ||| name == "iframe"@
    ||| name == "svg"@
    ||| name == "form"@
}

/// Whether a token opens a boilerplate subtree.
pub open spec fn is_skip_element(t: TokenView) -> bool {
    t.node matches NodeView::Element(n) && is_skip_tag(n)
}

/// Whether the subtree opened at `j` has ended by position `hi`: some node
/// after `j`, up to `hi`, is not deeper than `j`.
pub open spec fn closed_by(toks: Seq<TokenView>, j: int, hi: int) -> bool {
    exists|m: int| j < m <= hi && #[trigger] toks[m].depth <= toks[j].depth
}

/// Whether the node at `i` lies inside a boilerplate subtree below the root
/// (the root is `toks[0]`).
pub open spec fn hidden(toks: Seq<TokenView>, i: int) -> bool {
    exists|j: int| 1 <= j < i && #[trigger] is_skip_element(toks[j]) && !closed_by(toks, j, i)
}

/// The line a token contributes: a text node's text, trimmed, with its runs
/// of whitespace collapsed to single spaces, when that is not empty.
pub open spec fn text_line(t: TokenView) -> Option<Seq<char>> {
    match t.node {
        NodeView::Text(s) => {
            let c = join(words(trim(s)), " "@);
            if trim(s).len() > 0 && c.len() > 0 {
                Some(c)
            } else {
                None
            }
        },
        _ => None,
    }
}

/// The lines of the root's subtree up to position `n` (exclusive).
pub open spec fn clean_lines_upto(toks: Seq<TokenView>, n: int) -> Seq<Seq<char>>
    decreases n,
{
    if n <= 1 {
        Seq::empty()
    } else {
        let before = clean_lines_upto(toks, n - 1);
        if !hidden(toks, n - 1) && text_line(toks[n - 1]) is Some {
            before.push(text_line(toks[n - 1])->0)
        } else {
            before
        }
    }
}

/// The readable text of a subtree: the lines of its text nodes outside
/// boilerplate, in document order, one per line.
pub open spec fn clean_text(toks: Seq<TokenView>) -> Seq<char> {
    join(clean_lines_upto(toks, toks.len() as int), "\n"@)
}

/// The content selectors, in order of priority.
pub open spec fn content_selector(i: int) -> Seq<char> {
    if i == 0 {
        "article"@
    } else if i == 1 {
        "main"@
    } else if i == 2 {
        "[role='main']"@
    } else if i == 3 {
        ".post-content"@
    } else if i == 4 {
        ".article-body"@
    } else if i == 5 {
        ".entry-content"@
    } else if i == 6 {
        "#content"@
    } else {
        "body"@
    }
}

/// The number of content selectors.
pub open spec fn content_selector_count() -> int {
    8
}

/// The content found by trying the selectors from `i` on: the text of the
/// first one whose first match has more than twenty words; failing that,
/// the text of the last one that matched (`current` if none did).
pub open spec fn scan_content(html: Seq<char>, i: int, current: Seq<char>) -> Seq<char>
    decreases content_selector_count() - i,
{
    if i >= content_selector_count() || i < 0 {
        current
    } else {
        match first_match_subtree(html, content_selector(i)) {
            Some(t) => {
                let c = clean_text(t);
                if words(c).len() > 20 {
                    c
                } else {
                    scan_content(html, i + 1, c)
                }
            },
            None => scan_content(html, i + 1, current),
        }
    }
}

/// The main content of a page: what the selector scan finds, or the whole
/// body's text when that has fewer than twenty words.
pub open spec fn main_content(html: Seq<char>) -> Seq<char> {
    let c = scan_content(html, 0, Seq::empty());
    if words(c).len() < 20 {
        match first_match_subtree(html, "body"@) {
            Some(t) => clean_text(t),
            None => c,
        }
    } else {
        c
    }
}

/// How much readable text a page has.
#[derive(Clone, Copy, PartialEq, Eq, Structural, Debug)]
pub enum ContentQuality {
    High,
    Medium,
    Low,
}

/// The quality for a word count: high above a hundred words, medium above
/// twenty, low otherwise.
pub open spec fn quality_of(word_count: nat) -> ContentQuality {
    if word_count > 100 {
        ContentQuality::High
    } else if word_count > 20 {
        ContentQuality::Medium
    } else {
        ContentQuality::Low
    }
}

impl ContentQuality {
    /// The name of the quality.
    pub fn as_str(self) -> (r: &'static str)
        ensures
            self == ContentQuality::High ==> r@ == "high"@,
            self == ContentQuality::Medium ==> r@ == "medium"@,
            self == ContentQuality::Low ==> r@ == "low"@,
    {
        match self {
            ContentQuality::High => "high",
            ContentQuality::Medium => "medium",
            ContentQuality::Low => "low",
        }
    }
}

/// An extracted article.
pub struct ArticleExtraction {
    pub url: String,
    pub title: String,
    pub author: String,
    pub description: String,
    pub content: String,
    pub word_count: usize,
    pub method: &'static str,
    pub quality: ContentQuality,
}

/// The first selected element's text, trimmed; empty when none matched.
pub open spec fn first_text_trimmed(sel: Option<Seq<crate::dom::ElementView>>) -> Seq<char> {
    match sel {
        Some(v) => if v.len() > 0 {
            trim(v[0].text)
        } else {
            Seq::empty()
        },
        None => Seq::empty(),
    }
}

/// The first selected element's first requested attribute; empty when no
/// element matched or it lacks the attribute.
pub open spec fn first_attr(sel: Option<Seq<crate::dom::ElementView>>) -> Seq<char> {
    match sel {
        Some(v) => if v.len() > 0 && v[0].attrs.len() > 0 && v[0].attrs[0] is Some {
            v[0].attrs[0]->0
        } else {
            Seq::empty()
        },
        None => Seq::empty(),
    }
}

/// Article extraction from HTML.
pub struct TrafilaturaExtractor;

/// Whether a tag name is a boilerplate tag.
fn skip_tag(name: &str) -> (r: bool)
    ensures
        r == is_skip_tag(name@),
{
    str_equal(name, "script") || str_equal(name, "style") || str_equal(name, "nav")
        || str_equal(name, "footer") || str_equal(name, "header") || str_equal(name, "aside")
        || str_equal(name, "noscript") || str_equal(name, "iframe") || str_equal(name, "svg")
        || str_equal(name, "form")
}

/// From the skip state before position `i`, every boilerplate subtree that
/// opened before `i` has ended by `i`, unless the state says position `i` is
/// still inside the one it tracks.
proof fn lemma_all_closed(toks: Seq<TokenView>, i: int, skip: Option<(int, int)>)
    requires
        1 <= i < toks.len(),
        skip is None ==> forall|j: int|
            1 <= j < i && #[trigger] is_skip_element(toks[j]) ==> closed_by(toks, j, i - 1),
        skip matches Some((x, sd)) ==> {
            &&& 1 <= x < i
            &&& toks[x].depth == sd
            &&& forall|m: int| x < m < i ==> #[trigger] toks[m].depth > sd
            &&& forall|j: int|
                1 <= j < x && #[trigger] is_skip_element(toks[j]) ==> closed_by(toks, j, x)
            &&& toks[i].depth <= sd
        },
    ensures
        forall|j: int| 1 <= j < i && #[trigger] is_skip_element(toks[j]) ==> closed_by(toks, j, i),
        !hidden(toks, i),
{
    assert forall|j: int| 1 <= j < i && #[trigger] is_skip_element(toks[j]) implies closed_by(
        toks,
        j,
        i,
    ) by {
        match skip {
            None => {
                let m = choose|m: int| j < m <= i - 1 && #[trigger] toks[m].depth <= toks[j].depth;
                assert(j < m <= i && toks[m].depth <= toks[j].depth);
            },
            Some((x, sd)) => {
                if j < x {
                    let m = choose|m: int| j < m <= x && #[trigger] toks[m].depth <= toks[j].depth;
                    assert(j < m <= i && toks[m].depth <= toks[j].depth);
                } else if j == x {
                    assert(toks[i].depth <= toks[j].depth);
                } else {
                    assert(toks[j].depth > sd);
                    assert(toks[i].depth <= toks[j].depth);
                }
            },
        }
    }
}

impl TrafilaturaExtractor {
    pub fn new() -> Self {
        TrafilaturaExtractor
    }

    /// The readable text of a subtree given by its tokens.
    pub fn clean_text_of(&self, toks: &Vec<DomToken>) -> (r: String)
        ensures
            r@ == clean_text(tokens_view(toks@)),
    {
        let ghost tv = tokens_view(toks@);
        let n = toks.len();
        if n == 0 {
            let e = String::new();
            proof {
                assert(clean_lines_upto(tv, 0) =~= Seq::<Seq<char>>::empty());
                assert(e@ =~= clean_text(tv));
            }
            return e;
        }
        let mut lines: Vec<Vec<char>> = Vec::new();
        let mut skip: Option<(usize, usize)> = None;
        let mut i: usize = 1;
        while i < n
            invariant
                n == toks@.len(),
                tv == tokens_view(toks@),
                1 <= i <= n,
                views_of(lines@) == clean_lines_upto(tv, i as int),
                skip is None ==> forall|j: int|
                    1 <= j < i && #[trigger] is_skip_element(tv[j]) ==> closed_by(tv, j, i - 1),
                skip matches Some((x, sd)) ==> {
                    &&& 1 <= x < i
                    &&& is_skip_element(tv[x as int])
                    &&& tv[x as int].depth == sd
                    &&& forall|m: int| x < m < i ==> #[trigger] tv[m].depth > sd
                    &&& forall|j: int|
                        1 <= j < x && #[trigger] is_skip_element(tv[j]) ==> closed_by(tv, j, x as int)
                },
            decreases n - i,
        {
            let d = toks[i].depth;
            let inside = match skip {
                Some((_, sd)) => d > sd,
                None => false,
            };
            proof {
                assert(tv[i as int] == toks@[i as int]@);
            }
            if inside {
                proof {
                    let (x, sd) = skip->0;
                    assert(!closed_by(tv, x as int, i as int));
                    assert(hidden(tv, i as int));
                    assert(clean_lines_upto(tv, i + 1) == clean_lines_upto(tv, i as int));
                }
            } else {
                proof {
                    let sk: Option<(int, int)> = match skip {
                        Some((x, sd)) => Some((x as int, sd as int)),
                        None => None,
                    };
                    lemma_all_closed(tv, i as int, sk);
                }
                let ghost before = views_of(lines@);
                match &toks[i].node {
                    DomNode::Element(name) => {
                        if skip_tag(name.as_str()) {
                            skip = Some((i, d));
                        } else {
                            skip = None;
                        }
                    },
                    DomNode::Text(t) => {
                        skip = None;
                        let cs = chars_of(t.as_str());
                        let trimmed = trim_chars(cs.as_slice());
                        if trimmed.len() > 0 {
                            let ws = split_words(trimmed.as_slice());
                            let sp = chars_of(" ");
                            let collapsed = join_chars(&ws, sp.as_slice());
                            if collapsed.len() > 0 {
                                lines.push(collapsed);
                                proof {
                                    assert(views_of(lines@) =~= before.push(
                                        text_line(tv[i as int])->0,
                                    ));
                                }
                            }
                        }
                    },
                    DomNode::Other => {
                        skip = None;
                    },
                }
                proof {
                    assert(!hidden(tv, i as int));
                }
            }
            i = i + 1;
        }
        let nl = chars_of("\n");
        let joined = join_chars(&lines, nl.as_slice());
        proof {
            assert(tv.len() == n);
            assert(i == n);
        }
        string_of(joined.as_slice())
    }

    /// The readable text of the first element matching `selector`, if any.
    fn text_of_first(&self, html: &str, selector: &str) -> (r: Option<String>)
        ensures
            r matches Some(s) ==> first_match_subtree(html@, selector@) matches Some(t) && s@
                == clean_text(t),
            r is None ==> first_match_subtree(html@, selector@) is None,
    {
        match first_match_tokens(html, selector) {
            Some(toks) => Some(self.clean_text_of(&toks)),
            None => None,
        }
    }

    /// The number of words of `s`.
    fn word_count(s: &String) -> (n: usize)
        ensures
            n == words(s@).len(),
    {
        let cs = chars_of(s.as_str());
        let ws = split_words(cs.as_slice());
        ws.len()
    }

    /// The main content of a page: the readable text of the first of
    /// `article`, `main`, `[role='main']`, `.post-content`, `.article-body`,
    /// `.entry-content`, `#content` and `body` whose first match has more
    /// than twenty words, else of the last one that matched, else empty;
    /// replaced by the whole body's text when it has fewer than twenty words.
    pub fn main_content_of(&self, html: &str) -> (r: String)
        ensures
            r@ == main_content(html@),
    {
        let selectors: Vec<&str> = vec![
            "article", "main", "[role='main']", ".post-content", ".article-body",
            ".entry-content", "#content", "body",
        ];
        let mut content = String::new();
        let mut i: usize = 0;
        proof {
            assert(content@ =~= Seq::<char>::empty());
        }
        while i < selectors.len()
            invariant
                selectors@.len() == 8,
                forall|k: int| 0 <= k < 8 ==> #[trigger] selectors@[k]@ == content_selector(k),
                i <= 8,
                scan_content(html@, i as int, content@) == scan_content(html@, 0, Seq::empty()),
            decreases 8 - i,
        {
            match self.text_of_first(html, selectors[i]) {
                Some(c) => {
                    let enough = Self::word_count(&c) > 20;
                    content = c;
                    if enough {
                        return self.body_fallback(html, content);
                    }
                },
                None => {},
            }
            i = i + 1;
        }
        self.body_fallback(html, content)
    }

    /// `content`, or the whole body's text when `content` has fewer than
    /// twenty words.
    fn body_fallback(&self, html: &str, content: String) -> (r: String)
        requires
            content@ == scan_content(html@, 0, Seq::empty()),
        ensures
            r@ == main_content(html@),
    {
        if Self::word_count(&content) < 20 {
            match self.text_of_first(html, "body") {
                Some(b) => b,
                None => content,
            }
        } else {
            content
        }
    }

    /// High-quality article extraction from raw HTML: the page title
    /// (trimmed), the `description` and `author` meta contents, the main
    /// content, its word count and the quality that count gives.
    pub fn extract_content(&self, html: &str, url: &str) -> (r: ArticleExtraction)
        ensures
            r.url@ == url@,
            r.title@ == first_text_trimmed(selected_elements(html@, "title"@, Seq::empty())),
            r.description@ == first_attr(
                selected_elements(html@, "meta[name='description']"@, seq!["content"@]),
            ),
            r.author@ == first_attr(
                selected_elements(html@, "meta[name='author']"@, seq!["content"@]),
            ),
            r.content@ == main_content(html@),
            r.word_count == words(main_content(html@)).len(),
            r.quality == quality_of(r.word_count as nat),
            r.method@ == "Trafilatura (scraper-based article extraction)"@,
    {
        let no_attrs: Vec<&str> = Vec::new();
        let content_attr: Vec<&str> = vec!["content"];
        proof {
            assert(crate::dom::strings_view(no_attrs@) =~= Seq::<Seq<char>>::empty());
            assert(crate::dom::strings_view(content_attr@) =~= seq!["content"@]);
        }
        let title = match select_elements(html, "title", no_attrs.as_slice()) {
            Some(v) => if v.len() > 0 {
                let cs = chars_of(v[0].text.as_str());
                let t = trim_chars(cs.as_slice());
                string_of(t.as_slice())
            } else {
                String::new()
            },
            None => String::new(),
        };
        let description = Self::first_content_attr(html, "meta[name='description']", &content_attr);
        let author = Self::first_content_attr(html, "meta[name='author']", &content_attr);
        let content = self.main_content_of(html);
        let word_count = Self::word_count(&content);
        let quality = if word_count > 100 {
            ContentQuality::High
        } else if word_count > 20 {
            ContentQuality::Medium
        } else {
            ContentQuality::Low
        };
        ArticleExtraction {
            url: owned(url),
            title,
            author,
            description,
            content,
            word_count,
            method: "Trafilatura (scraper-based article extraction)",
            quality,
        }
    }

    /// The `content` attribute of the first element matching `selector`.
    fn first_content_attr(html: &str, selector: &str, content_attr: &Vec<&str>) -> (r: String)
        requires
            crate::dom::strings_view(content_attr@) == seq!["content"@],
        ensures
            r@ == first_attr(selected_elements(html@, selector@, seq!["content"@])),
    {
        match select_elements(html, selector, content_attr.as_slice()) {
            Some(v) => if v.len() > 0 && v[0].attrs.len() > 0 {
                match &v[0].attrs[0] {
                    Some(a) => a.clone(),
                    None => String::new(),
                }
            } else {
                String::new()
            },
            None => String::new(),
        }
    }
}

/// The boilerplate tags of an article page, whose subtrees hold no article
/// text.
pub open spec fn boilerplate_tags() -> Seq<Seq<char>> {
    seq!["script"@, "style"@, "nav"@, "footer"@, "header"@, "aside"@, "noscript"@, "iframe"@, "svg"@, "form"@]
}

proof fn lemma_skip_tag_listed(t: Seq<char>)
    ensures
        is_skip_tag(t) <==> boilerplate_tags().contains(t),
{
    let b = boilerplate_tags();
    if is_skip_tag(t) {
        if t == "script"@ { assert(b[0] == t); }
        else if t == "style"@ { assert(b[1] == t); }
        else if t == "nav"@ { assert(b[2] == t); }
        else if t == "footer"@ { assert(b[3] == t); }
        else if t == "header"@ { assert(b[4] == t); }
        else if t == "aside"@ { assert(b[5] == t); }
        else if t == "noscript"@ { assert(b[6] == t); }
        else if t == "iframe"@ { assert(b[7] == t); }
        else if t == "svg"@ { assert(b[8] == t); }
        else { assert(b[9] == t); }
    }
    if b.contains(t) {
        let k = choose|k: int| 0 <= k < b.len() && b[k] == t;
        assert(0 <= k < 10);
    }
}

/// No text inside the subtree of a boilerplate element (one of
/// `boilerplate_tags`, below the root) becomes a line of the clean text: a
/// token at `i` inside the subtree opened at `j` adds no line.
pub proof fn lemma_boilerplate_text_dropped(toks: Seq<TokenView>, j: int, i: int, tag: Seq<char>)
    requires
        1 <= j < i < toks.len(),
        toks[j].node == NodeView::Element(tag),
        boilerplate_tags().contains(tag),
        forall|m: int| j < m <= i ==> #[trigger] toks[m].depth > toks[j].depth,
    ensures
        clean_lines_upto(toks, i + 1) == clean_lines_upto(toks, i),
{
    lemma_skip_tag_listed(tag);
    assert(is_skip_element(toks[j]));
    assert(!closed_by(toks, j, i));
    assert(hidden(toks, i));
}

/// A text node outside every boilerplate subtree adds its line to the clean
/// text: its trimmed text with runs of whitespace collapsed to single
/// spaces, when that is not empty.
pub proof fn lemma_text_kept(toks: Seq<TokenView>, i: int, text: Seq<char>)
    requires
        1 <= i < toks.len(),
        toks[i].node == NodeView::Text(text),
        trim(text).len() > 0,
        join(words(trim(text)), " "@).len() > 0,
        forall|j: int, tag: Seq<char>|
            #![trigger toks[j], boilerplate_tags().contains(tag)]
            1 <= j < i && toks[j].node == NodeView::Element(tag) && boilerplate_tags().contains(tag)
                ==> exists|m: int| j < m <= i && #[trigger] toks[m].depth <= toks[j].depth,
    ensures
        clean_lines_upto(toks, i + 1) == clean_lines_upto(toks, i).push(join(words(trim(text)), " "@)),
{
    assert forall|j: int| 1 <= j < i && #[trigger] is_skip_element(toks[j]) implies closed_by(toks, j, i) by {
        let tag = toks[j].node->Element_0;
        lemma_skip_tag_listed(tag);
        assert(toks[j].node == NodeView::Element(tag));
        assert(boilerplate_tags().contains(tag));
    }
    assert(!hidden(toks, i));
}

/// Content with more than a hundred words is of high quality, with more
/// than twenty of medium quality, and shorter content of low quality.
pub proof fn lemma_quality_thresholds(w: nat)
    ensures
        quality_of(w) == ContentQuality::High <==> w > 100,
        quality_of(w) == ContentQuality::Medium <==> 20 < w <= 100,
        quality_of(w) == ContentQuality::Low <==> w <= 20,
{
}

/// A page whose first `article` element holds more than twenty words of
/// readable text has that text as its main content.
pub proof fn lemma_article_first(html: Seq<char>, toks: Seq<TokenView>)
    requires
        first_match_subtree(html, "article"@) == Some(toks),
        words(clean_text(toks)).len() > 20,
    ensures
        main_content(html) == clean_text(toks),
{
}

} // verus!
