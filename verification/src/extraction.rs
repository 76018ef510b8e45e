//! Markdown conversion and selector-driven structured extraction.
use vstd::prelude::*;
use crate::dom::{elements_view, select_elements, selected_elements};
use crate::hidden_gems::firecrawl_extraction::{nonempty_trimmed, nonempty_trimmed_texts, string_views};
use crate::text::{
    chars_of, copy_range, has_prefix, join, starts_with_chars, string_of, trim, trim_chars,
    views_of,
};

verus! {

/// What html2md produces for `html`.
pub uninterp spec fn markdown_of(html: Seq<char>) -> Seq<char>;

/// Converts `html` with `html2md::parse_html`. The contract claims only
/// that the result is `markdown_of` of `html`; the conversion is not stated.
#[verifier::external_body]
pub(crate) fn html2md_parse(html: &str) -> (r: String)
    ensures
        r@ == markdown_of(html@),
{
    html2md::parse_html(html)
}

/// The position of the first line feed in `s`, or its length.
pub open spec fn line_end(s: Seq<char>) -> nat
    decreases s.len(),
{
    if s.len() == 0 || s[0] == '\n' {
        0
    } else {
        1 + line_end(s.drop_first())
    }
}

/// `line` without the carriage return that ends it, if any.
pub open spec fn strip_cr(line: Seq<char>) -> Seq<char> {
    if line.len() > 0 && line.last() == '\r' {
        line.drop_last()
    } else {
        line
    }
}

/// The lines of `s` (what `str::lines` yields): split at line feeds, a
/// carriage return before a line feed removed, no final empty line.
pub open spec fn lines(s: Seq<char>) -> Seq<Seq<char>>
    decreases s.len(),
{
    if s.len() == 0 {
        Seq::empty()
    } else {
        let k = line_end(s);
        if k >= s.len() {
            seq![s]
        } else {
            seq![strip_cr(s.take(k as int))] + lines(s.skip((k + 1) as int))
        }
    }
}

/// A line worth keeping in cleaned markdown: not blank, and not a line of
/// script (starting, once trimmed, with "var " or "function ").
pub open spec fn keeps_line(line: Seq<char>) -> bool {
    let t = trim(line);
    t.len() > 0 && !has_prefix(t, "var "@) && !has_prefix(t, "function "@)
}

/// The lines of `ls` worth keeping, in order.
pub open spec fn kept_lines(ls: Seq<Seq<char>>) -> Seq<Seq<char>>
    decreases ls.len(),
{
    if ls.len() == 0 {
        Seq::empty()
    } else if keeps_line(ls.last()) {
        kept_lines(ls.drop_last()).push(ls.last())
    } else {
        kept_lines(ls.drop_last())
    }
}

/// Markdown cleaned for machine reading: the kept lines joined by line
/// feeds, trimmed.
pub open spec fn cleaned_markdown(md: Seq<char>) -> Seq<char> {
    trim(join(kept_lines(lines(md)), "\n"@))
}


/// The lines kept in cleaned markdown are exactly the lines that are not
/// blank and do not start, once trimmed, with "var " or "function ", in
/// their order.
pub proof fn lemma_kept_lines_filter(ls: Seq<Seq<char>>)
    ensures
        kept_lines(ls) == ls.filter(
            |l: Seq<char>| trim(l).len() > 0 && !has_prefix(trim(l), "var "@) && !has_prefix(trim(l), "function "@),
        ),
    decreases ls.len(),
{
    reveal(Seq::filter);
    if ls.len() > 0 {
        lemma_kept_lines_filter(ls.drop_last());
    }
}

/// Cleaned markdown is the markdown's lines that are not blank and not a
/// line of script (starting, once trimmed, with "var " or "function "),
/// joined by line feeds and trimmed: no such line survives.
pub proof fn lemma_cleaned_markdown_lines(md: Seq<char>)
    ensures
        cleaned_markdown(md) == trim(join(lines(md).filter(
            |l: Seq<char>| trim(l).len() > 0 && !has_prefix(trim(l), "var "@) && !has_prefix(trim(l), "function "@),
        ), "\n"@)),
        forall|i: int| 0 <= i < kept_lines(lines(md)).len() ==> {
            let kept = trim(#[trigger] kept_lines(lines(md))[i]);
            kept.len() > 0 && !has_prefix(kept, "var "@) && !has_prefix(kept, "function "@)
        },
{
    lemma_kept_lines_filter(lines(md));
    let pred = |l: Seq<char>| trim(l).len() > 0 && !has_prefix(trim(l), "var "@) && !has_prefix(trim(l), "function "@);
    assert forall|i: int| 0 <= i < kept_lines(lines(md)).len() implies {
        let kept = trim(#[trigger] kept_lines(lines(md))[i]);
        kept.len() > 0 && !has_prefix(kept, "var "@) && !has_prefix(kept, "function "@)
    } by {
        lines(md).lemma_filter_pred(pred, i);
    }
}

proof fn lemma_line_end_exact(s: Seq<char>, k: int)
    requires
        0 <= k <= s.len(),
        forall|j: int| 0 <= j < k ==> #[trigger] s[j] != '\n',
        k == s.len() || s[k] == '\n',
    ensures
        line_end(s) == k,
    decreases k,
{
    if k > 0 {
        let d = s.drop_first();
        assert forall|j: int| 0 <= j < k - 1 implies #[trigger] d[j] != '\n' by {
            assert(d[j] == s[j + 1]);
        }
        lemma_line_end_exact(d, k - 1);
    }
}

/// The lines of `s`, in order.
pub fn split_lines(s: &[char]) -> (r: Vec<Vec<char>>)
    ensures
        views_of(r@) == lines(s@),
{
    let n = s.len();
    let mut r: Vec<Vec<char>> = Vec::new();
    let mut i: usize = 0;
    assert(s@.skip(0) =~= s@);
    while i < n
        invariant
            n == s@.len(),
            i <= n,
            views_of(r@) + lines(s@.skip(i as int)) == lines(s@),
        decreases n - i,
    {
        let ghost rest = s@.skip(i as int);
        let mut j: usize = i;
        while j < n && s[j] != '\n'
            invariant
                n == s@.len(),
                i <= j <= n,
                forall|q: int| i <= q < j ==> #[trigger] s@[q] != '\n',
            decreases n - j,
        {
            j = j + 1;
        }
        proof {
            assert forall|q: int| 0 <= q < j - i implies #[trigger] rest[q] != '\n' by {
                assert(rest[q] == s@[q + i]);
            }
            lemma_line_end_exact(rest, j - i);
        }
        let ghost before = views_of(r@);
        if j == n {
            let line = copy_range(s, i, n);
            assert(line@ =~= rest);
            r.push(line);
            assert(views_of(r@) =~= before.push(rest));
            assert(s@.skip(n as int) =~= Seq::<char>::empty());
            assert(views_of(r@) + lines(s@.skip(n as int)) =~= before + lines(rest));
            i = n;
        } else {
            let end = if j > i && s[j - 1] == '\r' { j - 1 } else { j };
            let line = copy_range(s, i, end);
            assert(line@ =~= strip_cr(rest.take(j - i)));
            r.push(line);
            assert(views_of(r@) =~= before.push(line@));
            assert(rest.skip(j - i + 1) =~= s@.skip(j + 1));
            assert(views_of(r@) + lines(s@.skip(j + 1)) =~= before + lines(rest));
            i = j + 1;
        }
    }
    assert(s@.skip(n as int) =~= Seq::<char>::empty());
    assert(views_of(r@) + lines(s@.skip(n as int)) =~= views_of(r@));
    r
}

fn keeps(line: &Vec<char>) -> (r: bool)
    ensures
        r == keeps_line(line@),
{
    let t = trim_chars(line.as_slice());
    let var_kw = chars_of("var ");
    let fn_kw = chars_of("function ");
    t.len() > 0 && !starts_with_chars(t.as_slice(), var_kw.as_slice()) && !starts_with_chars(t.as_slice(), fn_kw.as_slice())
}

/// Cleans converted markdown: drops blank lines and lines of script, joins
/// the rest with line feeds and trims the result.
pub fn clean_markdown(md: &str) -> (r: String)
    ensures
        r@ == cleaned_markdown(md@),
{
    let cs = chars_of(md);
    let ls = split_lines(cs.as_slice());
    let mut kept: Vec<Vec<char>> = Vec::new();
    let mut i: usize = 0;
    while i < ls.len()
        invariant
            i <= ls@.len(),
            views_of(ls@) == lines(md@),
            views_of(kept@) == kept_lines(views_of(ls@).take(i as int)),
        decreases ls@.len() - i,
    {
        proof {
            let vs = views_of(ls@);
            assert(vs.take(i + 1).drop_last() =~= vs.take(i as int));
            assert(vs.take(i + 1).last() == ls@[i as int]@);
        }
        if keeps(&ls[i]) {
            let ghost before = views_of(kept@);
            kept.push(crate::text::clone_chars(ls[i].as_slice()));
            assert(views_of(kept@) =~= before.push(ls@[i as int]@));
        }
        i = i + 1;
    }
    assert(views_of(ls@).take(ls@.len() as int) =~= views_of(ls@));
    let nl = chars_of("\n");
    let joined = crate::text::join_chars(&kept, nl.as_slice());
    let t = trim_chars(joined.as_slice());
    string_of(t.as_slice())
}

/// A key with the texts that its selector matched.
pub struct KeyedTexts {
    pub key: String,
    pub texts: Vec<String>,
}

/// The entries extracted from `html` for the first `n` (key, selector)
/// pairs: a pair contributes its key with the trimmed non-empty texts of the
/// matching elements when the selector parses and some text remains.
pub open spec fn structured_upto(html: Seq<char>, pairs: Seq<(Seq<char>, Seq<char>)>, n: nat) -> Seq<(Seq<char>, Seq<Seq<char>>)>
    decreases n,
{
    if n == 0 {
        Seq::empty()
    } else {
        let prev = structured_upto(html, pairs, (n - 1) as nat);
        let (key, sel) = pairs[n - 1];
        match selected_elements(html, sel, Seq::empty()) {
            Some(els) => if nonempty_trimmed(els).len() > 0 {
                prev.push((key, nonempty_trimmed(els)))
            } else {
                prev
            },
            None => prev,
        }
    }
}

/// The views of (key, selector) pairs.
pub open spec fn pairs_view(v: Seq<(&str, &str)>) -> Seq<(Seq<char>, Seq<char>)> {
    v.map_values(|p: (&str, &str)| (p.0@, p.1@))
}

/// The views of extracted entries.
pub open spec fn keyed_view(v: Seq<KeyedTexts>) -> Seq<(Seq<char>, Seq<Seq<char>>)> {
    v.map_values(|k: KeyedTexts| (k.key@, string_views(k.texts@)))
}

/// Converts pages to Markdown and extracts data with CSS selectors.
pub struct AdvancedExtractor;

impl AdvancedExtractor {
    /// An extractor.
    pub fn new() -> (r: Self)
        ensures
            r == AdvancedExtractor,
    {
        AdvancedExtractor
    }

    /// The Markdown of `html`: html2md's conversion, cleaned.
    pub fn html_to_markdown(&self, html: &str, url: &str) -> (r: String)
        ensures
            r@ == cleaned_markdown(markdown_of(html@)),
    {
        let markdown = html2md_parse(html);
        self.clean_markdown(markdown.as_str(), url)
    }

    /// Cleans converted Markdown (see `cleaned_markdown`); the URL is not used.
    pub fn clean_markdown(&self, md: &str, url: &str) -> (r: String)
        ensures
            r@ == cleaned_markdown(md@),
    {
        clean_markdown(md)
    }

    /// The texts that each (key, selector) pair selects in `html`, for the
    /// pairs whose selector parses and selects some non-empty text, in
    /// order (see `structured_upto`; a later entry with an earlier key
    /// replaces it in the resulting object).
    pub fn extract_structured(&self, html: &str, selectors: &[(&str, &str)]) -> (r: Vec<KeyedTexts>)
        ensures
            keyed_view(r@) == structured_upto(html@, pairs_view(selectors@), selectors@.len()),
    {
        let none: [&str; 0] = [];
        assert(crate::dom::strings_view(none@) =~= Seq::<Seq<char>>::empty());
        let ghost pv = pairs_view(selectors@);
        let mut out: Vec<KeyedTexts> = Vec::new();
        let mut i: usize = 0;
        while i < selectors.len()
            invariant
                i <= selectors@.len(),
                pv == pairs_view(selectors@),
                crate::dom::strings_view(none@) == Seq::<Seq<char>>::empty(),
                keyed_view(out@) == structured_upto(html@, pv, i as nat),
            decreases selectors@.len() - i,
        {
            let (key, sel) = selectors[i];
            assert(pv[i as int] == (key@, sel@));
            match select_elements(html, sel, &none) {
                Some(els) => {
                    let texts = nonempty_trimmed_texts(&els);
                    if texts.len() > 0 {
                        let ghost before = keyed_view(out@);
                        out.push(KeyedTexts { key: crate::text::owned(key), texts });
                        assert(keyed_view(out@) =~= before.push((key@, nonempty_trimmed(elements_view(els@)))));
                    }
                },
                None => {},
            }
            i = i + 1;
        }
        out
    }
}

} // verus!
