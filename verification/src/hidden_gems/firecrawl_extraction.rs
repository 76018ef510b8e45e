//! Schema-driven extraction: each field named in a schema is filled from
//! the page, by title, e-mail and price patterns, link count, or as a CSS
//! selector whose matching texts are collected.
use vstd::prelude::*;
use crate::dom::{ElementData, ElementView, elements_view, select_elements, selected_elements};
use crate::text::{chars_of, str_equal, string_of, trim, trim_chars};

verus! {

/// The pattern that finds e-mail addresses.
pub open spec fn email_pattern() -> Seq<char> {
    "[a-zA-Z0-9._%+-]+@[a-zA-Z0-9.-]+\\.[a-zA-Z]{2,}"@
}

/// The pattern that finds prices.
pub open spec fn price_pattern() -> Seq<char> {
    "[$€£¥]\\s?\\d+(?:[.,]\\d{2})?"@
}

/// What the regex crate finds: the non-overlapping leftmost-first matches
/// of `pattern` in `text`, in order; `None` when the pattern does not compile.
pub uninterp spec fn regex_matches(pattern: Seq<char>, text: Seq<char>) -> Option<Seq<Seq<char>>>;

/// Compiles `pattern` with `regex::Regex::new` and collects the matched
/// texts of `Regex::find_iter` over `text`. The contract claims that the
/// result is `regex_matches` of the arguments; the matching itself is not
/// stated.
#[verifier::external_body]
pub(crate) fn regex_find_all(pattern: &str, text: &str) -> (r: Option<Vec<String>>)
    ensures
        r matches Some(v) ==> regex_matches(pattern@, text@) == Some(v@.map_values(|s: String| s@)),
        r is None ==> regex_matches(pattern@, text@) is None,
{
    let re = regex::Regex::new(pattern).ok()?;
    let mut out = Vec::new();
    for m in re.find_iter(text) {
        out.push(m.as_str().to_string());
    }
    Some(out)
}

/// The value extracted for one schema field.
pub enum FieldValue {
    /// The page title.
    Text(String),
    /// A list of texts (e-mails, prices, or texts of matching elements).
    List(Vec<String>),
    /// The number of links.
    Count(usize),
    /// The field names no valid selector.
    Placeholder,
}

/// One extracted field.
pub struct ExtractedField {
    pub key: String,
    pub value: FieldValue,
}

/// The text of the first element of a selection, empty when there is none.
pub open spec fn first_text(o: Option<Seq<ElementView>>) -> Seq<char> {
    match o {
        Some(v) => if v.len() > 0 { v[0].text } else { Seq::empty() },
        None => Seq::empty(),
    }
}

/// The page title: the text of its first `title` element.
pub open spec fn page_title(html: Seq<char>) -> Seq<char> {
    first_text(selected_elements(html, "title"@, Seq::empty()))
}

/// The page body text: the text of its first `body` element.
pub open spec fn page_body(html: Seq<char>) -> Seq<char> {
    first_text(selected_elements(html, "body"@, Seq::empty()))
}

/// The trimmed texts of `els` that are not empty, in order.
pub open spec fn nonempty_trimmed(els: Seq<ElementView>) -> Seq<Seq<char>>
    decreases els.len(),
{
    if els.len() == 0 {
        Seq::empty()
    } else if trim(els.last().text).len() > 0 {
        nonempty_trimmed(els.drop_last()).push(trim(els.last().text))
    } else {
        nonempty_trimmed(els.drop_last())
    }
}

/// The matches of a pattern, none when it does not compile.
pub open spec fn matches_or_empty(o: Option<Seq<Seq<char>>>) -> Seq<Seq<char>> {
    match o {
        Some(v) => v,
        None => Seq::empty(),
    }
}

/// The views of a vector of strings.
pub open spec fn string_views(v: Seq<String>) -> Seq<Seq<char>> {
    v.map_values(|s: String| s@)
}

fn first_text_of(html: &str, selector: &str) -> (r: String)
    ensures
        r@ == first_text(selected_elements(html@, selector@, Seq::empty())),
{
    let names: [&str; 0] = [];
    assert(crate::dom::strings_view(names@) =~= Seq::<Seq<char>>::empty());
    match select_elements(html, selector, &names) {
        Some(v) => {
            if v.len() > 0 {
                assert(elements_view(v@)[0] == v@[0]@);
                v[0].text.clone()
            } else {
                proof {
                    reveal_strlit("");
                }
                crate::text::owned("")
            }
        },
        None => {
            proof {
                reveal_strlit("");
            }
            crate::text::owned("")
        },
    }
}

/// The trimmed non-empty texts of the elements `els`.
pub fn nonempty_trimmed_texts(els: &Vec<ElementData>) -> (r: Vec<String>)
    ensures
        string_views(r@) == nonempty_trimmed(elements_view(els@)),
{
    let ghost ev = elements_view(els@);
    let mut r: Vec<String> = Vec::new();
    let mut i: usize = 0;
    while i < els.len()
        invariant
            i <= els@.len(),
            ev == elements_view(els@),
            string_views(r@) == nonempty_trimmed(ev.take(i as int)),
        decreases els@.len() - i,
    {
        proof {
            assert(ev.take(i + 1).drop_last() =~= ev.take(i as int));
            assert(ev.take(i + 1).last() == els@[i as int]@);
        }
        let cs = chars_of(els[i].text.as_str());
        let t = trim_chars(cs.as_slice());
        if t.len() > 0 {
            let ghost before = string_views(r@);
            r.push(string_of(t.as_slice()));
            assert(string_views(r@) =~= before.push(trim(els@[i as int].text@)));
        }
        i = i + 1;
    }
    assert(ev.take(els@.len() as int) =~= ev);
    r
}

/// The distinct items of `v`, in order of first occurrence.
pub fn distinct(v: &Vec<String>) -> (r: Vec<String>)
    ensures
        string_views(r@).no_duplicates(),
        string_views(r@).to_set() == string_views(v@).to_set(),
{
    let mut r: Vec<String> = Vec::new();
    let mut i: usize = 0;
    while i < v.len()
        invariant
            i <= v@.len(),
            string_views(r@).no_duplicates(),
            string_views(r@).to_set() == string_views(v@).take(i as int).to_set(),
        decreases v@.len() - i,
    {
        let mut seen = false;
        let mut j: usize = 0;
        while j < r.len()
            invariant
                j <= r@.len(),
                i < v@.len(),
                seen == exists|q: int| 0 <= q < j && r@[q]@ == v@[i as int]@,
            decreases r@.len() - j,
        {
            if crate::text::str_equal(r[j].as_str(), v[i].as_str()) {
                seen = true;
            }
            j = j + 1;
        }
        let ghost before = string_views(r@);
        proof {
            assert(string_views(v@).take(i + 1) =~= string_views(v@).take(i as int).push(v@[i as int]@));
            vstd::seq_lib::lemma_seq_contains_after_push(string_views(v@).take(i as int), v@[i as int]@, v@[i as int]@);
            assert forall|x: Seq<char>| #[trigger] string_views(v@).take(i + 1).contains(x) <==> string_views(v@).take(i as int).contains(x) || x == v@[i as int]@ by {
                vstd::seq_lib::lemma_seq_contains_after_push(string_views(v@).take(i as int), v@[i as int]@, x);
            }
            assert(string_views(v@).take(i + 1).to_set() =~= string_views(v@).take(i as int).to_set().insert(v@[i as int]@));
        }
        if !seen {
            r.push(v[i].clone());
            assert(string_views(r@) =~= before.push(v@[i as int]@));
            assert forall|x: Seq<char>| #[trigger] string_views(r@).contains(x) <==> before.contains(x) || x == v@[i as int]@ by {
                vstd::seq_lib::lemma_seq_contains_after_push(before, v@[i as int]@, x);
            }
            assert(string_views(r@).to_set() =~= before.to_set().insert(v@[i as int]@));
        } else {
            proof {
                let q = choose|q: int| 0 <= q < r@.len() && r@[q]@ == v@[i as int]@;
                assert(before[q] == v@[i as int]@);
                assert(before.contains(v@[i as int]@));
            }
            assert(string_views(r@).to_set() =~= before.to_set().insert(v@[i as int]@));
        }
        i = i + 1;
    }
    assert(string_views(v@).take(v@.len() as int) =~= string_views(v@));
    r
}


/// The value a schema field `key` gets from page `html`: the title; the
/// distinct e-mail or price matches of the body text; the number of `a`
/// elements; or, for any other key read as a CSS selector, the trimmed
/// non-empty texts of the matching elements (a placeholder when the key is
/// not a valid selector). The list values are stated as sets below.
pub open spec fn field_matches(html: Seq<char>, key: Seq<char>, v: FieldValue) -> bool {
    if key == "title"@ {
        v matches FieldValue::Text(t) && t@ == page_title(html)
    } else if key == "emails"@ {
        v matches FieldValue::List(l) && string_views(l@).no_duplicates()
            && string_views(l@).to_set() == matches_or_empty(regex_matches(email_pattern(), page_body(html))).to_set()
    } else if key == "prices"@ {
        v matches FieldValue::List(l) && string_views(l@).no_duplicates()
            && string_views(l@).to_set() == matches_or_empty(regex_matches(price_pattern(), page_body(html))).to_set()
    } else if key == "links_count"@ {
        v matches FieldValue::Count(n) && n == match selected_elements(html, "a"@, Seq::empty()) {
            Some(els) => els.len(),
            None => 0,
        }
    } else {
        match selected_elements(html, key, Seq::empty()) {
            Some(els) => v matches FieldValue::List(l) && string_views(l@) == nonempty_trimmed(els),
            None => v is Placeholder,
        }
    }
}

/// Extracts structured data with a field schema.
pub struct FirecrawlExtractor;

impl FirecrawlExtractor {
    /// An extractor.
    pub fn new() -> (r: Self)
        ensures
            r == FirecrawlExtractor,
    {
        FirecrawlExtractor
    }

    /// Fills each field of the schema, in the order of `schema_keys`, from
    /// page `html` (see `field_matches`).
    pub fn extract_with_schema(&self, html: &str, schema_keys: &Vec<String>) -> (r: Vec<ExtractedField>)
        ensures
            r@.len() == schema_keys@.len(),
            forall|i: int| 0 <= i < r@.len() ==> (#[trigger] r@[i]).key@ == schema_keys@[i]@
                && field_matches(html@, schema_keys@[i]@, r@[i].value),
    {
        let title = first_text_of(html, "title");
        let body = first_text_of(html, "body");
        let none: [&str; 0] = [];
        assert(crate::dom::strings_view(none@) =~= Seq::<Seq<char>>::empty());
        let mut out: Vec<ExtractedField> = Vec::new();
        let mut i: usize = 0;
        while i < schema_keys.len()
            invariant
                i <= schema_keys@.len(),
                title@ == page_title(html@),
                body@ == page_body(html@),
                crate::dom::strings_view(none@) == Seq::<Seq<char>>::empty(),
                out@.len() == i,
                forall|j: int| 0 <= j < i ==> (#[trigger] out@[j]).key@ == schema_keys@[j]@
                    && field_matches(html@, schema_keys@[j]@, out@[j].value),
            decreases schema_keys@.len() - i,
        {
            let key = schema_keys[i].as_str();
            let value = if str_equal(key, "title") {
                FieldValue::Text(title.clone())
            } else if str_equal(key, "emails") {
                let found = match regex_find_all("[a-zA-Z0-9._%+-]+@[a-zA-Z0-9.-]+\\.[a-zA-Z]{2,}", body.as_str()) {
                    Some(v) => v,
                    None => Vec::new(),
                };
                proof {
                    assert(string_views(found@) == matches_or_empty(regex_matches(email_pattern(), page_body(html@))));
                }
                FieldValue::List(distinct(&found))
            } else if str_equal(key, "prices") {
                let found = match regex_find_all("[$€£¥]\\s?\\d+(?:[.,]\\d{2})?", body.as_str()) {
                    Some(v) => v,
                    None => Vec::new(),
                };
                proof {
                    assert(string_views(found@) == matches_or_empty(regex_matches(price_pattern(), page_body(html@))));
                }
                FieldValue::List(distinct(&found))
            } else if str_equal(key, "links_count") {
                let n = match select_elements(html, "a", &none) {
                    Some(v) => v.len(),
                    None => 0,
                };
                FieldValue::Count(n)
            } else {
                match select_elements(html, key, &none) {
                    Some(v) => FieldValue::List(nonempty_trimmed_texts(&v)),
                    None => FieldValue::Placeholder,
                }
            };
            out.push(ExtractedField { key: schema_keys[i].clone(), value });
            i = i + 1;
        }
        out
    }
}

/// The texts taken from a selection are the trimmed texts of its elements
/// that are not blank once trimmed, in document order.
pub proof fn lemma_nonempty_trimmed_in_order(els: Seq<ElementView>)
    ensures
        nonempty_trimmed(els) == els.filter(|e: ElementView| trim(e.text).len() > 0).map_values(
            |e: ElementView| trim(e.text),
        ),
    decreases els.len(),
{
    reveal(Seq::filter);
    let p = |e: ElementView| trim(e.text).len() > 0;
    let f = |e: ElementView| trim(e.text);
    if els.len() > 0 {
        lemma_nonempty_trimmed_in_order(els.drop_last());
        let prev = els.drop_last().filter(p);
        if p(els.last()) {
            assert(els.filter(p) == prev.push(els.last()));
            assert(prev.push(els.last()).map_values(f) =~= prev.map_values(f).push(f(els.last())));
        }
    } else {
        assert(els.filter(p).map_values(f) =~= Seq::<Seq<char>>::empty());
    }
}

} // verus!
