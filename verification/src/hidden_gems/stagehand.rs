//! Semantic element targeting: interactive elements of a page are scored
//! against a natural-language instruction by weighted attribute matches,
//! label association and role bonuses, and the best three are returned
//! with a CSS selector each.
use vstd::prelude::*;
use crate::dom::{ElementData, ElementView, elements_view, select_elements, selected_elements, strings_view};
use crate::hidden_gems::ranking::{as_ints, rank_top, top_ranked};
use crate::text::{
    chars_equal, floor_prefix, floor_prefix_of, chars_of, contains_chars, eq_str, has_str,
    has_sub, lowercase, split_words, string_of, to_lowercase, trim, trim_chars, utf8_len,
    utf8_width_of, views_of, words,
};

verus! {

/// The selector of the elements that can be targeted.
pub open spec fn interactive_selector() -> Seq<char> {
    "input, button, a, textarea, select, [role='button'], [role='textbox'], [role='link'], [role='checkbox'], [role='radio'], [role='tab'], [role='menuitem'], [contenteditable='true']"@
}

/// The attributes read from each targetable element, in slot order.
pub open spec fn scored_attr_names() -> Seq<Seq<char>> {
    seq!["id"@, "name"@, "placeholder"@, "class"@, "type"@, "aria-label"@, "role"@, "data-testid"@, "data-cy"@, "title"@]
}

pub open spec fn ID() -> int { 0 }
pub open spec fn NAME() -> int { 1 }
pub open spec fn PLACEHOLDER() -> int { 2 }
pub open spec fn CLASS() -> int { 3 }
pub open spec fn TYPE() -> int { 4 }
pub open spec fn ARIA_LABEL() -> int { 5 }
pub open spec fn ROLE() -> int { 6 }
pub open spec fn TESTID() -> int { 7 }
pub open spec fn CY() -> int { 8 }
pub open spec fn TITLE() -> int { 9 }

/// The raw value of attribute slot `i` of `e`, empty when absent.
pub open spec fn raw_attr(e: ElementView, i: int) -> Seq<char> {
    match e.attrs[i] {
        Some(v) => v,
        None => Seq::empty(),
    }
}

/// The lowercased value of attribute slot `i` of `e`.
pub open spec fn low_attr(e: ElementView, i: int) -> Seq<char> {
    lowercase(raw_attr(e, i))
}

/// The lowercased, trimmed text of `e`.
pub open spec fn low_text(e: ElementView) -> Seq<char> {
    lowercase(trim(e.text))
}

/// The semantic role of `e`: its `role` attribute when present, otherwise
/// the role implied by its tag (and, for inputs, its type).
pub open spec fn semantic_role(e: ElementView) -> Seq<char> {
    let aria = low_attr(e, ROLE());
    let t = low_attr(e, TYPE());
    if aria.len() > 0 {
        aria
    } else if e.tag == "input"@ {
        if t == "submit"@ || t == "button"@ {
            "button"@
        } else if t == "checkbox"@ {
            "checkbox"@
        } else if t == "radio"@ {
            "radio"@
        } else {
            "textbox"@
        }
    } else if e.tag == "button"@ {
        "button"@
    } else if e.tag == "a"@ {
        "link"@
    } else if e.tag == "textarea"@ {
        "textbox"@
    } else if e.tag == "select"@ {
        "combobox"@
    } else {
        "generic"@
    }
}

/// `w` points when `b` holds, none otherwise.
pub open spec fn pts(b: bool, w: int) -> int {
    if b {
        w
    } else {
        0
    }
}

/// The points one search term earns: 14 in the aria label, 13 in the
/// placeholder, 11 in the id, 10 each in the name, test id and cy id, 9 in
/// the title, 8 in the text and 3 in the class.
pub open spec fn term_points(e: ElementView, t: Seq<char>) -> int {
    pts(has_sub(low_attr(e, ARIA_LABEL()), t), 14) + pts(has_sub(low_attr(e, PLACEHOLDER()), t), 13)
        + pts(has_sub(low_attr(e, ID()), t), 11) + pts(has_sub(low_attr(e, NAME()), t), 10)
        + pts(has_sub(low_attr(e, TESTID()), t), 10) + pts(has_sub(low_attr(e, CY()), t), 10)
        + pts(has_sub(low_attr(e, TITLE()), t), 9) + pts(has_sub(low_text(e), t), 8)
        + pts(has_sub(low_attr(e, CLASS()), t), 3)
}

/// The points all search terms earn.
pub open spec fn terms_points(e: ElementView, terms: Seq<Seq<char>>) -> int
    decreases terms.len(),
{
    if terms.len() == 0 {
        0
    } else {
        terms_points(e, terms.drop_last()) + term_points(e, terms.last())
    }
}

/// 12 points for each search term that occurs in `label`.
pub open spec fn label_term_points(label: Seq<char>, terms: Seq<Seq<char>>) -> int
    decreases terms.len(),
{
    if terms.len() == 0 {
        0
    } else {
        label_term_points(label, terms.drop_last()) + pts(has_sub(label, terms.last()), 12)
    }
}

/// The lowercased, trimmed text of the last label whose `for` attribute is
/// `key`.
pub open spec fn label_lookup(labels: Seq<ElementView>, key: Seq<char>) -> Option<Seq<char>>
    decreases labels.len(),
{
    if labels.len() == 0 {
        None
    } else if labels.last().attrs[0] == Some(key) {
        Some(lowercase(trim(labels.last().text)))
    } else {
        label_lookup(labels.drop_last(), key)
    }
}

/// The points a label associated with `e` earns.
pub open spec fn label_points(e: ElementView, labels: Seq<ElementView>, terms: Seq<Seq<char>>) -> int {
    let id = low_attr(e, ID());
    if id.len() > 0 {
        match label_lookup(labels, id) {
            Some(l) => label_term_points(l, terms),
            None => 0,
        }
    } else {
        0
    }
}

/// The bonuses for roles and well-known purposes named in the instruction.
pub open spec fn role_points(instr: Seq<char>, e: ElementView) -> int {
    let role = semantic_role(e);
    let t = low_attr(e, TYPE());
    let id = low_attr(e, ID());
    let name = low_attr(e, NAME());
    let ph = low_attr(e, PLACEHOLDER());
    let class = low_attr(e, CLASS());
    let text = low_text(e);
    pts(has_sub(instr, "button"@) && role == "button"@, 8)
        + pts(has_sub(instr, "link"@) && role == "link"@, 8)
        + pts(has_sub(instr, "input"@) && role == "textbox"@, 8)
        + pts(has_sub(instr, "checkbox"@) && role == "checkbox"@, 8)
        + pts(has_sub(instr, "search"@) && (t == "search"@ || has_sub(id, "search"@) || has_sub(ph, "search"@)), 12)
        + pts(has_sub(instr, "submit"@) && (t == "submit"@ || has_sub(text, "submit"@)), 12)
        + pts(has_sub(instr, "login"@) && (has_sub(id, "login"@) || has_sub(class, "login"@) || has_sub(text, "login"@) || has_sub(text, "sign in"@)), 12)
        + pts(has_sub(instr, "email"@) && (t == "email"@ || has_sub(id, "email"@) || has_sub(name, "email"@) || has_sub(ph, "email"@)), 12)
        + pts(has_sub(instr, "password"@) && (t == "password"@ || has_sub(id, "password"@) || has_sub(name, "password"@)), 12)
}

/// The score of element `e` for the lowercased instruction `instr`.
pub open spec fn element_score(instr: Seq<char>, terms: Seq<Seq<char>>, labels: Seq<ElementView>, e: ElementView) -> int {
    terms_points(e, terms) + label_points(e, labels, terms) + role_points(instr, e)
}

/// The words of `ws` longer than one byte.
pub open spec fn long_words(ws: Seq<Seq<char>>) -> Seq<Seq<char>>
    decreases ws.len(),
{
    if ws.len() == 0 {
        Seq::empty()
    } else if utf8_len(ws.last()) > 1 {
        long_words(ws.drop_last()).push(ws.last())
    } else {
        long_words(ws.drop_last())
    }
}

/// The search terms of a lowercased instruction: its words longer than one byte.
pub open spec fn search_terms(instr: Seq<char>) -> Seq<Seq<char>> {
    long_words(words(instr))
}

/// The first word of `s`, empty when there is none.
pub open spec fn first_word(s: Seq<char>) -> Seq<char> {
    if words(s).len() > 0 {
        words(s)[0]
    } else {
        Seq::empty()
    }
}

/// The CSS selector generated for `e`: by id, test id, cy id, name,
/// placeholder, aria label or first class, whichever comes first, else the tag.
pub open spec fn selector_of(e: ElementView) -> Seq<char> {
    if low_attr(e, ID()).len() > 0 {
        "#"@ + low_attr(e, ID())
    } else if low_attr(e, TESTID()).len() > 0 {
        "[data-testid='"@ + raw_attr(e, TESTID()) + "']"@
    } else if low_attr(e, CY()).len() > 0 {
        "[data-cy='"@ + raw_attr(e, CY()) + "']"@
    } else if low_attr(e, NAME()).len() > 0 {
        e.tag + "[name='"@ + raw_attr(e, NAME()) + "']"@
    } else if low_attr(e, PLACEHOLDER()).len() > 0 {
        e.tag + "[placeholder='"@ + raw_attr(e, PLACEHOLDER()) + "']"@
    } else if low_attr(e, ARIA_LABEL()).len() > 0 {
        e.tag + "[aria-label='"@ + raw_attr(e, ARIA_LABEL()) + "']"@
    } else if low_attr(e, CLASS()).len() > 0 {
        e.tag + "."@ + first_word(low_attr(e, CLASS()))
    } else {
        e.tag
    }
}

/// The description of `e` given the shortened text `cut`.
pub open spec fn description_of(e: ElementView, cut: Seq<char>) -> Seq<char> {
    let id = low_attr(e, ID());
    "<"@ + e.tag + "> role="@ + semantic_role(e) + " id="@ + (if id.len() == 0 {
        "(none)"@
    } else {
        id
    }) + " text='"@ + cut + "'"@
}

/// A ranked element as plain values.
pub struct CandidateView {
    pub score: int,
    pub selector: Seq<char>,
    pub role: Seq<char>,
    pub description: Seq<char>,
}

/// The candidate made of element `e`.
pub open spec fn candidate_of(instr: Seq<char>, terms: Seq<Seq<char>>, labels: Seq<ElementView>, e: ElementView) -> CandidateView {
    CandidateView {
        score: element_score(instr, terms, labels, e),
        selector: selector_of(e),
        role: semantic_role(e),
        description: description_of(e, floor_prefix(low_text(e), 40)),
    }
}

/// The candidates of the first `n` elements: those with a positive score,
/// in document order.
pub open spec fn candidates_upto(instr: Seq<char>, terms: Seq<Seq<char>>, labels: Seq<ElementView>, els: Seq<ElementView>, n: nat) -> Seq<CandidateView>
    decreases n,
{
    if n == 0 {
        Seq::empty()
    } else {
        let prev = candidates_upto(instr, terms, labels, els, (n - 1) as nat);
        let e = els[n - 1];
        if element_score(instr, terms, labels, e) > 0 {
            prev.push(candidate_of(instr, terms, labels, e))
        } else {
            prev
        }
    }
}

/// The elements of a selection, none when the selector does not parse.
pub open spec fn selection_or_empty(o: Option<Seq<ElementView>>) -> Seq<ElementView> {
    match o {
        Some(v) => v,
        None => Seq::empty(),
    }
}

/// The targetable elements of a page.
pub open spec fn page_elements(html: Seq<char>) -> Seq<ElementView> {
    selection_or_empty(selected_elements(html, interactive_selector(), scored_attr_names()))
}

/// The labels of a page that name the element they describe.
pub open spec fn page_labels(html: Seq<char>) -> Seq<ElementView> {
    selection_or_empty(selected_elements(html, "label[for]"@, seq!["for"@]))
}

/// The scores of a list of candidates.
pub open spec fn scores_of(cs: Seq<CandidateView>) -> Seq<int> {
    cs.map_values(|c: CandidateView| c.score)
}


/// An element chosen for an instruction, with its score.
pub struct ElementCandidate {
    pub score: u128,
    pub selector: String,
    pub role: String,
    pub description: String,
}

impl View for ElementCandidate {
    type V = CandidateView;

    open spec fn view(&self) -> CandidateView {
        CandidateView {
            score: self.score as int,
            selector: self.selector@,
            role: self.role@,
            description: self.description@,
        }
    }
}

impl ElementCandidate {
    /// A copy of the candidate.
    pub fn copy(&self) -> (r: Self)
        ensures
            r@ == self@,
    {
        ElementCandidate {
            score: self.score,
            selector: self.selector.clone(),
            role: self.role.clone(),
            description: self.description.clone(),
        }
    }
}

/// The result of a search: the instruction and the best candidates, best first.
pub struct ElementSearch {
    pub instruction: String,
    pub candidates: Vec<ElementCandidate>,
}

/// The element a search points to.
pub struct PrimaryElement {
    pub selector: String,
    pub role: String,
    pub description: String,
    /// Whether the element is a candidate (otherwise it is the page body).
    pub matched: bool,
}

impl ElementSearch {
    /// The element the search points to: its best candidate, or, when no
    /// element matched, the page body as a generic element.
    pub fn primary(&self) -> (r: PrimaryElement)
        ensures
            self.candidates@.len() == 0 ==> {
                &&& r.selector@ == "body"@
                &&& r.role@ == "generic"@
                &&& r.description@ == "No matching interactive element found"@
                &&& !r.matched
            },
            self.candidates@.len() > 0 ==> {
                &&& r.selector@ == self.candidates@[0].selector@
                &&& r.role@ == self.candidates@[0].role@
                &&& r.description@ == self.candidates@[0].description@
                &&& r.matched
            },
    {
        if self.candidates.len() == 0 {
            PrimaryElement {
                selector: crate::text::owned("body"),
                role: crate::text::owned("generic"),
                description: crate::text::owned("No matching interactive element found"),
                matched: false,
            }
        } else {
            let c = &self.candidates[0];
            PrimaryElement {
                selector: c.selector.clone(),
                role: c.role.clone(),
                description: c.description.clone(),
                matched: true,
            }
        }
    }
}

/// The lowercased attributes and text of an element.
struct Lowered {
    id: Vec<char>,
    name: Vec<char>,
    placeholder: Vec<char>,
    class: Vec<char>,
    type_: Vec<char>,
    aria_label: Vec<char>,
    role_attr: Vec<char>,
    testid: Vec<char>,
    cy: Vec<char>,
    title: Vec<char>,
    text: Vec<char>,
}

spec fn lowered_of(l: Lowered, e: ElementView) -> bool {
    &&& l.id@ == low_attr(e, ID())
    &&& l.name@ == low_attr(e, NAME())
    &&& l.placeholder@ == low_attr(e, PLACEHOLDER())
    &&& l.class@ == low_attr(e, CLASS())
    &&& l.type_@ == low_attr(e, TYPE())
    &&& l.aria_label@ == low_attr(e, ARIA_LABEL())
    &&& l.role_attr@ == low_attr(e, ROLE())
    &&& l.testid@ == low_attr(e, TESTID())
    &&& l.cy@ == low_attr(e, CY())
    &&& l.title@ == low_attr(e, TITLE())
    &&& l.text@ == low_text(e)
}

fn low_slot(e: &ElementData, i: usize) -> (r: Vec<char>)
    requires
        i < e.attrs@.len(),
    ensures
        r@ == low_attr(e@, i as int),
{
    let lowered = match &e.attrs[i] {
        Some(v) => to_lowercase(v.as_str()),
        None => {
            proof {
                reveal_strlit("");
                assert(""@ =~= Seq::<char>::empty());
            }
            to_lowercase("")
        },
    };
    proof {
        assert(e@.attrs[i as int] == crate::dom::opt_view(e.attrs@[i as int]));
    }
    chars_of(lowered.as_str())
}

fn lower_text_of(text: &str) -> (r: Vec<char>)
    ensures
        r@ == lowercase(trim(text@)),
{
    let cs = chars_of(text);
    let t = trim_chars(cs.as_slice());
    let ts = string_of(t.as_slice());
    let lowered = to_lowercase(ts.as_str());
    chars_of(lowered.as_str())
}

fn lower_element(e: &ElementData) -> (r: Lowered)
    requires
        e.attrs@.len() == 10,
    ensures
        lowered_of(r, e@),
{
    Lowered {
        id: low_slot(e, 0),
        name: low_slot(e, 1),
        placeholder: low_slot(e, 2),
        class: low_slot(e, 3),
        type_: low_slot(e, 4),
        aria_label: low_slot(e, 5),
        role_attr: low_slot(e, 6),
        testid: low_slot(e, 7),
        cy: low_slot(e, 8),
        title: low_slot(e, 9),
        text: lower_text_of(e.text.as_str()),
    }
}

fn role_of(e: &ElementData, l: &Lowered) -> (r: Vec<char>)
    requires
        lowered_of(*l, e@),
    ensures
        r@ == semantic_role(e@),
{
    if l.role_attr.len() > 0 {
        return copy_all(&l.role_attr);
    }
    let tag = chars_of(e.tag.as_str());
    let t = l.type_.as_slice();
    let name = if eq_str(tag.as_slice(), "input") {
        if eq_str(t, "submit") || eq_str(t, "button") {
            "button"
        } else if eq_str(t, "checkbox") {
            "checkbox"
        } else if eq_str(t, "radio") {
            "radio"
        } else {
            "textbox"
        }
    } else if eq_str(tag.as_slice(), "button") {
        "button"
    } else if eq_str(tag.as_slice(), "a") {
        "link"
    } else if eq_str(tag.as_slice(), "textarea") {
        "textbox"
    } else if eq_str(tag.as_slice(), "select") {
        "combobox"
    } else {
        "generic"
    };
    chars_of(name)
}

fn copy_all(v: &Vec<char>) -> (r: Vec<char>)
    ensures
        r@ == v@,
{
    crate::text::clone_chars(v.as_slice())
}

fn weight(b: bool, w: u128) -> (r: u128)
    ensures
        r == pts(b, w as int),
{
    if b {
        w
    } else {
        0
    }
}

fn term_points_of(e: &ElementData, l: &Lowered, t: &[char]) -> (r: u128)
    requires
        lowered_of(*l, e@),
    ensures
        r == term_points(e@, t@),
        r <= 88,
{
    weight(contains_chars(l.aria_label.as_slice(), t), 14) + weight(contains_chars(l.placeholder.as_slice(), t), 13)
        + weight(contains_chars(l.id.as_slice(), t), 11) + weight(contains_chars(l.name.as_slice(), t), 10)
        + weight(contains_chars(l.testid.as_slice(), t), 10) + weight(contains_chars(l.cy.as_slice(), t), 10)
        + weight(contains_chars(l.title.as_slice(), t), 9) + weight(contains_chars(l.text.as_slice(), t), 8)
        + weight(contains_chars(l.class.as_slice(), t), 3)
}

fn terms_points_of(e: &ElementData, l: &Lowered, terms: &Vec<Vec<char>>) -> (r: u128)
    requires
        lowered_of(*l, e@),
    ensures
        r == terms_points(e@, views_of(terms@)),
        r <= 88 * terms@.len(),
{
    let mut acc: u128 = 0;
    let mut i: usize = 0;
    while i < terms.len()
        invariant
            lowered_of(*l, e@),
            i <= terms@.len(),
            acc == terms_points(e@, views_of(terms@).take(i as int)),
            acc <= 88 * i,
        decreases terms@.len() - i,
    {
        let p = term_points_of(e, l, terms[i].as_slice());
        proof {
            let vs = views_of(terms@);
            assert(vs.take(i + 1).drop_last() =~= vs.take(i as int));
        }
        acc = acc + p;
        i = i + 1;
    }
    assert(views_of(terms@).take(terms@.len() as int) =~= views_of(terms@));
    acc
}

fn label_term_points_of(label: &Vec<char>, terms: &Vec<Vec<char>>) -> (r: u128)
    ensures
        r == label_term_points(label@, views_of(terms@)),
        r <= 12 * terms@.len(),
{
    let mut acc: u128 = 0;
    let mut i: usize = 0;
    while i < terms.len()
        invariant
            i <= terms@.len(),
            acc == label_term_points(label@, views_of(terms@).take(i as int)),
            acc <= 12 * i,
        decreases terms@.len() - i,
    {
        let p = weight(contains_chars(label.as_slice(), terms[i].as_slice()), 12);
        proof {
            let vs = views_of(terms@);
            assert(vs.take(i + 1).drop_last() =~= vs.take(i as int));
        }
        acc = acc + p;
        i = i + 1;
    }
    assert(views_of(terms@).take(terms@.len() as int) =~= views_of(terms@));
    acc
}

fn lookup_label(labels: &Vec<ElementData>, key: &Vec<char>) -> (r: Option<Vec<char>>)
    requires
        forall|i: int| 0 <= i < labels@.len() ==> #[trigger] labels@[i].attrs@.len() == 1,
    ensures
        r matches Some(v) ==> label_lookup(elements_view(labels@), key@) == Some(v@),
        r is None ==> label_lookup(elements_view(labels@), key@) is None,
{
    let ghost all = elements_view(labels@);
    let mut i: usize = labels.len();
    assert(all.take(i as int) =~= all);
    while i > 0
        invariant
            i <= labels@.len(),
            all == elements_view(labels@),
            forall|j: int| 0 <= j < labels@.len() ==> #[trigger] labels@[j].attrs@.len() == 1,
            label_lookup(all, key@) == label_lookup(all.take(i as int), key@),
        decreases i,
    {
        let ghost pre = all.take(i as int);
        assert(pre.last() == labels@[i - 1]@);
        assert(pre.drop_last() =~= all.take(i - 1));
        assert(labels@[i - 1]@.attrs[0] == crate::dom::opt_view(labels@[i - 1].attrs@[0]));
        let matches = match &labels[i - 1].attrs[0] {
            Some(v) => {
                let vc = chars_of(v.as_str());
                chars_equal(vc.as_slice(), key.as_slice())
            },
            None => false,
        };
        if matches {
            let t = lower_text_of(labels[i - 1].text.as_str());
            return Some(t);
        }
        i = i - 1;
    }
    None
}

fn label_points_of(e: &ElementData, l: &Lowered, labels: &Vec<ElementData>, terms: &Vec<Vec<char>>) -> (r: u128)
    requires
        lowered_of(*l, e@),
        forall|i: int| 0 <= i < labels@.len() ==> #[trigger] labels@[i].attrs@.len() == 1,
    ensures
        r == label_points(e@, elements_view(labels@), views_of(terms@)),
        r <= 12 * terms@.len(),
{
    if l.id.len() > 0 {
        match lookup_label(labels, &l.id) {
            Some(label) => label_term_points_of(&label, terms),
            None => 0,
        }
    } else {
        0
    }
}

fn role_points_of(instr: &[char], e: &ElementData, l: &Lowered, role: &[char]) -> (r: u128)
    requires
        lowered_of(*l, e@),
        role@ == semantic_role(e@),
    ensures
        r == role_points(instr@, e@),
        r <= 92,
{
    let t = l.type_.as_slice();
    let id = l.id.as_slice();
    let name = l.name.as_slice();
    let ph = l.placeholder.as_slice();
    let class = l.class.as_slice();
    let text = l.text.as_slice();
    weight(has_str(instr, "button") && eq_str(role, "button"), 8)
        + weight(has_str(instr, "link") && eq_str(role, "link"), 8)
        + weight(has_str(instr, "input") && eq_str(role, "textbox"), 8)
        + weight(has_str(instr, "checkbox") && eq_str(role, "checkbox"), 8)
        + weight(has_str(instr, "search") && (eq_str(t, "search") || has_str(id, "search") || has_str(ph, "search")), 12)
        + weight(has_str(instr, "submit") && (eq_str(t, "submit") || has_str(text, "submit")), 12)
        + weight(has_str(instr, "login") && (has_str(id, "login") || has_str(class, "login") || has_str(text, "login") || has_str(text, "sign in")), 12)
        + weight(has_str(instr, "email") && (eq_str(t, "email") || has_str(id, "email") || has_str(name, "email") || has_str(ph, "email")), 12)
        + weight(has_str(instr, "password") && (eq_str(t, "password") || has_str(id, "password") || has_str(name, "password")), 12)
}


fn raw_slot(e: &ElementData, i: usize) -> (r: String)
    requires
        i < e.attrs@.len(),
    ensures
        r@ == raw_attr(e@, i as int),
{
    proof {
        assert(e@.attrs[i as int] == crate::dom::opt_view(e.attrs@[i as int]));
    }
    match &e.attrs[i] {
        Some(v) => v.clone(),
        None => {
            proof {
                reveal_strlit("");
                assert(""@ =~= Seq::<char>::empty());
            }
            crate::text::owned("")
        },
    }
}

/// `pre` + `mid` + `post`.
fn wrap3(pre: &str, mid: &str, post: &str) -> (r: String)
    ensures
        r@ == pre@ + mid@ + post@,
{
    let mut r = crate::text::owned(pre);
    r.append(mid);
    r.append(post);
    r
}

fn selector_for(e: &ElementData, l: &Lowered) -> (r: String)
    requires
        lowered_of(*l, e@),
        e.attrs@.len() == 10,
    ensures
        r@ == selector_of(e@),
{
    proof {
        reveal_strlit("");
        assert(forall|x: Seq<char>| #[trigger] (x + ""@) =~= x);
    }
    let tag = e.tag.as_str();
    if l.id.len() > 0 {
        let id = string_of(l.id.as_slice());
        wrap3("#", id.as_str(), "")
    } else if l.testid.len() > 0 {
        let v = raw_slot(e, 7);
        wrap3("[data-testid='", v.as_str(), "']")
    } else if l.cy.len() > 0 {
        let v = raw_slot(e, 8);
        wrap3("[data-cy='", v.as_str(), "']")
    } else if l.name.len() > 0 {
        let v = raw_slot(e, 1);
        let mut r = wrap3(tag, "[name='", v.as_str());
        r.append("']");
        r
    } else if l.placeholder.len() > 0 {
        let v = raw_slot(e, 2);
        let mut r = wrap3(tag, "[placeholder='", v.as_str());
        r.append("']");
        r
    } else if l.aria_label.len() > 0 {
        let v = raw_slot(e, 5);
        let mut r = wrap3(tag, "[aria-label='", v.as_str());
        r.append("']");
        r
    } else if l.class.len() > 0 {
        let ws = split_words(l.class.as_slice());
        let first = if ws.len() > 0 {
            assert(views_of(ws@)[0] == ws@[0]@);
            string_of(ws[0].as_slice())
        } else {
            proof {
                reveal_strlit("");
                assert(""@ =~= Seq::<char>::empty());
            }
            crate::text::owned("")
        };
        wrap3(tag, ".", first.as_str())
    } else {
        proof {
            reveal_strlit("");
            assert(e@.tag + ""@ + ""@ =~= e@.tag);
        }
        wrap3(tag, "", "")
    }
}

fn description_for(e: &ElementData, l: &Lowered, role: &[char], cut: &[char]) -> (r: String)
    requires
        lowered_of(*l, e@),
        role@ == semantic_role(e@),
    ensures
        r@ == description_of(e@, cut@),
{
    let mut r = wrap3("<", e.tag.as_str(), "> role=");
    let rs = string_of(role);
    r.append(rs.as_str());
    r.append(" id=");
    if l.id.len() == 0 {
        r.append("(none)");
    } else {
        let id = string_of(l.id.as_slice());
        r.append(id.as_str());
    }
    r.append(" text='");
    let cs = string_of(cut);
    r.append(cs.as_str());
    r.append("'");
    r
}

proof fn lemma_utf8_len_at_least_len(s: Seq<char>)
    ensures
        utf8_len(s) >= s.len(),
    decreases s.len(),
{
    if s.len() > 0 {
        lemma_utf8_len_at_least_len(s.drop_last());
    }
}

fn longer_than_one_byte(w: &Vec<char>) -> (r: bool)
    ensures
        r == (utf8_len(w@) > 1),
{
    proof {
        lemma_utf8_len_at_least_len(w@);
    }
    if w.len() >= 2 {
        true
    } else if w.len() == 1 {
        proof {
            assert(w@.drop_last() =~= Seq::<char>::empty());
            assert(utf8_len(w@.drop_last()) == 0);
            assert(w@.last() == w@[0]);
        }
        utf8_width_of(w[0]) > 1
    } else {
        false
    }
}

fn search_terms_of(instr: &Vec<char>) -> (r: Vec<Vec<char>>)
    ensures
        views_of(r@) == search_terms(instr@),
{
    let ws = split_words(instr.as_slice());
    let mut r: Vec<Vec<char>> = Vec::new();
    let mut i: usize = 0;
    while i < ws.len()
        invariant
            i <= ws@.len(),
            views_of(ws@) == words(instr@),
            views_of(r@) == long_words(views_of(ws@).take(i as int)),
        decreases ws@.len() - i,
    {
        proof {
            let vs = views_of(ws@);
            assert(vs.take(i + 1).drop_last() =~= vs.take(i as int));
            assert(vs.take(i + 1).last() == ws@[i as int]@);
        }
        if longer_than_one_byte(&ws[i]) {
            let ghost before = views_of(r@);
            r.push(copy_all(&ws[i]));
            assert(views_of(r@) =~= before.push(ws@[i as int]@));
        }
        i = i + 1;
    }
    assert(views_of(ws@).take(ws@.len() as int) =~= views_of(ws@));
    r
}

/// Finds the page elements that best match a natural-language instruction.
pub struct StagehandEngine;

impl StagehandEngine {
    /// An engine.
    pub fn new() -> (r: Self)
        ensures
            r == StagehandEngine,
    {
        StagehandEngine
    }

    /// Scores each targetable element of `page_html` for `instruction`
    /// (see `element_score`) and returns the three best-scoring elements with
    /// a positive score, highest score first and ties in document order.
    /// Each description holds the element's text cut at the last character
    /// boundary at or before byte 40.
    pub fn find_element(&self, instruction: &str, page_html: &str) -> (r: ElementSearch)
        ensures
            ({
                let instr = lowercase(instruction@);
                let terms = search_terms(instr);
                let els = page_elements(page_html@);
                let labels = page_labels(page_html@);
                let cands = candidates_upto(instr, terms, labels, els, els.len());
                let top = top_ranked(scores_of(cands), 3);
                &&& r.instruction@ == instruction@
                &&& r.candidates@.len() == top.len()
                &&& forall|k: int| 0 <= k < top.len() ==> #[trigger] r.candidates@[k]@ == cands[top[k]]
            }),
    {
        let names: [&str; 10] = ["id", "name", "placeholder", "class", "type", "aria-label", "role", "data-testid", "data-cy", "title"];
        assert(crate::dom::strings_view(names@) =~= scored_attr_names());
        let selector = "input, button, a, textarea, select, [role='button'], [role='textbox'], [role='link'], [role='checkbox'], [role='radio'], [role='tab'], [role='menuitem'], [contenteditable='true']";
        let elements: Vec<ElementData> = match select_elements(page_html, selector, &names) {
            Some(v) => v,
            None => Vec::new(),
        };
        let label_names: [&str; 1] = ["for"];
        assert(crate::dom::strings_view(label_names@) =~= seq!["for"@]);
        let labels: Vec<ElementData> = match select_elements(page_html, "label[for]", &label_names) {
            Some(v) => v,
            None => Vec::new(),
        };
        let ghost els = elements_view(elements@);
        let ghost lbs = elements_view(labels@);
        assert(els == page_elements(page_html@));
        assert(lbs == page_labels(page_html@));
        let lowered_instr = to_lowercase(instruction);
        let instr = chars_of(lowered_instr.as_str());
        let terms = search_terms_of(&instr);
        let ghost tv = views_of(terms@);
        assert(instr@ == lowercase(instruction@));
        assert(tv == search_terms(instr@));
        let tl = terms.len();
        let mut cands: Vec<ElementCandidate> = Vec::new();
        let mut i: usize = 0;
        while i < elements.len()
            invariant
                i <= elements@.len(),
                els == elements_view(elements@),
                lbs == elements_view(labels@),
                tv == views_of(terms@),
                tl == terms@.len(),
                els == page_elements(page_html@),
                lbs == page_labels(page_html@),
                instr@ == lowercase(instruction@),
                tv == search_terms(instr@),
                forall|j: int| 0 <= j < elements@.len() ==> #[trigger] elements@[j].attrs@.len() == 10,
                forall|j: int| 0 <= j < labels@.len() ==> #[trigger] labels@[j].attrs@.len() == 1,
                cands@.map_values(|c: ElementCandidate| c@) == candidates_upto(instr@, tv, lbs, els, i as nat),
            decreases elements@.len() - i,
        {
            let e = &elements[i];
            assert(els[i as int] == e@);
            let l = lower_element(e);
            let role = role_of(e, &l);
            let score = terms_points_of(e, &l, &terms) + label_points_of(e, &l, &labels, &terms)
                + role_points_of(instr.as_slice(), e, &l, role.as_slice());
            if score > 0 {
                let cut = floor_prefix_of(l.text.as_slice(), 40);
                let c = ElementCandidate {
                    score,
                    selector: selector_for(e, &l),
                    role: string_of(role.as_slice()),
                    description: description_for(e, &l, role.as_slice(), cut.as_slice()),
                };
                let ghost before = cands@.map_values(|c: ElementCandidate| c@);
                cands.push(c);
                assert(cands@.map_values(|c: ElementCandidate| c@) =~= before.push(c@));
            }
            i = i + 1;
        }
        let ghost cv = cands@.map_values(|c: ElementCandidate| c@);
        assert(cv == candidates_upto(instr@, tv, lbs, els, els.len()));
        let mut scores: Vec<u128> = Vec::new();
        let mut k: usize = 0;
        while k < cands.len()
            invariant
                k <= cands@.len(),
                cv == cands@.map_values(|c: ElementCandidate| c@),
                as_ints(scores@) == scores_of(cv).take(k as int),
            decreases cands@.len() - k,
        {
            let ghost prev = as_ints(scores@);
            scores.push(cands[k].score);
            assert(cv[k as int].score == cands@[k as int].score as int);
            assert(as_ints(scores@) =~= prev.push(cands@[k as int].score as int));
            assert(scores_of(cv).take(k + 1) =~= scores_of(cv).take(k as int).push(scores_of(cv)[k as int]));
            k = k + 1;
        }
        assert(scores_of(cv).take(cands@.len() as int) =~= scores_of(cv));
        let top = rank_top(&scores, 3);
        let ghost topv = top@.map_values(|i: usize| i as int);
        let mut out: Vec<ElementCandidate> = Vec::new();
        let mut q: usize = 0;
        while q < top.len()
            invariant
                q <= top@.len(),
                topv == top@.map_values(|i: usize| i as int),
                topv == top_ranked(scores_of(cv), 3),
                cv == cands@.map_values(|c: ElementCandidate| c@),
                out@.len() == q,
                forall|p: int| 0 <= p < q ==> #[trigger] out@[p]@ == cv[topv[p]],
            decreases top@.len() - q,
        {
            proof {
                lemma_top_in_range(scores_of(cv), 3, q as int);
            }
            let c = cands[top[q]].copy();
            out.push(c);
            q = q + 1;
        }
        ElementSearch { instruction: crate::text::owned(instruction), candidates: out }
    }
}

proof fn lemma_top_in_range(s: Seq<int>, m: nat, k: int)
    requires
        0 <= k < top_ranked(s, m).len(),
    ensures
        0 <= top_ranked(s, m)[k] < s.len(),
    decreases m,
{
    if m > 0 {
        let p = top_ranked(s, (m - 1) as nat);
        let prev = if p.len() == 0 { None } else { Some(p.last()) };
        if k < p.len() {
            lemma_top_in_range(s, (m - 1) as nat, k);
        } else {
            let b = crate::hidden_gems::ranking::next_ranked(s, prev)->Some_0;
            assert(crate::hidden_gems::ranking::is_next(s, prev, b));
        }
    }
}


/// Every candidate has a positive score.
proof fn lemma_candidates_positive(instr: Seq<char>, terms: Seq<Seq<char>>, labels: Seq<ElementView>, els: Seq<ElementView>, n: nat)
    requires
        n <= els.len(),
    ensures
        forall|k: int| 0 <= k < candidates_upto(instr, terms, labels, els, n).len()
            ==> #[trigger] candidates_upto(instr, terms, labels, els, n)[k].score > 0,
    decreases n,
{
    if n > 0 {
        lemma_candidates_positive(instr, terms, labels, els, (n - 1) as nat);
        let prev = candidates_upto(instr, terms, labels, els, (n - 1) as nat);
        let cur = candidates_upto(instr, terms, labels, els, n);
        let e = els[n - 1];
        assert forall|k: int| 0 <= k < cur.len() implies #[trigger] cur[k].score > 0 by {
            if k < prev.len() {
                assert(cur[k] == prev[k]);
            } else {
                assert(cur[k] == candidate_of(instr, terms, labels, e));
            }
        }
    }
}

/// What an element search returns: at most three candidates, each with a
/// positive score, best first (ties in document order); no candidate left
/// out scores higher than the last one returned.
pub proof fn lemma_search_ranking(instr: Seq<char>, terms: Seq<Seq<char>>, labels: Seq<ElementView>, els: Seq<ElementView>)
    ensures
        ({
            let cands = candidates_upto(instr, terms, labels, els, els.len());
            let top = top_ranked(scores_of(cands), 3);
            &&& top.len() <= 3
            &&& forall|k: int| 0 <= k < top.len() ==> 0 <= #[trigger] top[k] < cands.len() && cands[top[k]].score > 0
            &&& forall|k: int, k2: int| 0 <= k < k2 < top.len() ==> cands[#[trigger] top[k]].score >= cands[#[trigger] top[k2]].score
            &&& forall|j: int| 0 <= j < cands.len() && !top.contains(j) ==> top.len() == 3
                && #[trigger] cands[j].score <= cands[top.last()].score
        }),
{
    let cands = candidates_upto(instr, terms, labels, els, els.len());
    let sc = scores_of(cands);
    lemma_candidates_positive(instr, terms, labels, els, els.len());
    crate::hidden_gems::ranking::lemma_top_ranked(sc, 3);
    let top = top_ranked(sc, 3);
    assert forall|k: int| 0 <= k < top.len() implies 0 <= #[trigger] top[k] < cands.len() && cands[top[k]].score > 0 by {
        assert(sc[top[k]] == cands[top[k]].score);
    }
    assert forall|k: int, k2: int| 0 <= k < k2 < top.len() implies cands[#[trigger] top[k]].score >= cands[#[trigger] top[k2]].score by {
        assert(crate::hidden_gems::ranking::ranks_before(sc, top[k], top[k2]));
        assert(sc[top[k]] == cands[top[k]].score);
        assert(sc[top[k2]] == cands[top[k2]].score);
    }
    assert forall|j: int| 0 <= j < cands.len() && !top.contains(j) implies top.len() == 3
        && #[trigger] cands[j].score <= cands[top.last()].score by {
        assert(sc[j] == cands[j].score);
        assert(sc[top.last()] == cands[top.last()].score);
    }
}

/// The label found for `key` is the last label whose `for` attribute is
/// `key`, its text trimmed and lowercased; none when no label names `key`.
pub proof fn lemma_label_lookup_last(labels: Seq<ElementView>, key: Seq<char>)
    ensures
        forall|i: int| 0 <= i < labels.len() && labels[i].attrs[0] == Some(key)
            && (forall|j: int| i < j < labels.len() ==> labels[j].attrs[0] != Some(key))
            ==> label_lookup(labels, key) == Some(lowercase(trim(#[trigger] labels[i].text))),
        (forall|j: int| 0 <= j < labels.len() ==> labels[j].attrs[0] != Some(key))
            ==> label_lookup(labels, key) is None,
    decreases labels.len(),
{
    if labels.len() > 0 {
        let rest = labels.drop_last();
        lemma_label_lookup_last(rest, key);
        assert forall|i: int| 0 <= i < labels.len() && labels[i].attrs[0] == Some(key)
            && (forall|j: int| i < j < labels.len() ==> labels[j].attrs[0] != Some(key))
            implies label_lookup(labels, key) == Some(lowercase(trim(#[trigger] labels[i].text))) by {
            if i < labels.len() - 1 {
                assert(labels.last() == labels[labels.len() - 1]);
                assert(labels.last().attrs[0] != Some(key));
                assert(rest[i] == labels[i]);
                assert forall|j: int| i < j < rest.len() implies rest[j].attrs[0] != Some(key) by {
                    assert(rest[j] == labels[j]);
                }
            }
        }
        if forall|j: int| 0 <= j < labels.len() ==> labels[j].attrs[0] != Some(key) {
            assert(labels.last() == labels[labels.len() - 1]);
            assert forall|j: int| 0 <= j < rest.len() implies rest[j].attrs[0] != Some(key) by {
                assert(rest[j] == labels[j]);
            }
        }
    }
}

/// A label earns 12 points for each search term its text contains.
pub proof fn lemma_label_term_points_count(label: Seq<char>, terms: Seq<Seq<char>>)
    ensures
        label_term_points(label, terms) == 12 * terms.filter(|t: Seq<char>| has_sub(label, t)).len(),
    decreases terms.len(),
{
    if terms.len() > 0 {
        let pred = |t: Seq<char>| has_sub(label, t);
        lemma_label_term_points_count(label, terms.drop_last());
        let before = terms.drop_last().filter(pred);
        reveal(Seq::filter);
        assert(terms.filter(pred) == (if pred(terms.last()) { before.push(terms.last()) } else { before }));
        if pred(terms.last()) {
            assert(terms.filter(pred).len() == before.len() + 1);
        }
    }
}

/// The label bonus of an element: when the element has an id and some label
/// names that (lowercased) id, 12 points for each search term contained in
/// the trimmed, lowercased text of the last such label; no points otherwise.
pub proof fn lemma_label_points(e: ElementView, labels: Seq<ElementView>, terms: Seq<Seq<char>>)
    ensures
        forall|i: int| 0 <= i < labels.len() && low_attr(e, ID()).len() > 0
            && labels[i].attrs[0] == Some(low_attr(e, ID()))
            && (forall|j: int| i < j < labels.len() ==> labels[j].attrs[0] != Some(low_attr(e, ID())))
            ==> label_points(e, labels, terms) == 12 * terms.filter(
                |t: Seq<char>| has_sub(lowercase(trim(#[trigger] labels[i].text)), t),
            ).len(),
        (low_attr(e, ID()).len() == 0 || forall|j: int| 0 <= j < labels.len()
            ==> labels[j].attrs[0] != Some(low_attr(e, ID()))) ==> label_points(e, labels, terms) == 0,
{
    lemma_label_lookup_last(labels, low_attr(e, ID()));
    assert forall|i: int| 0 <= i < labels.len() && low_attr(e, ID()).len() > 0
        && labels[i].attrs[0] == Some(low_attr(e, ID()))
        && (forall|j: int| i < j < labels.len() ==> labels[j].attrs[0] != Some(low_attr(e, ID())))
        implies label_points(e, labels, terms) == 12 * terms.filter(
            |t: Seq<char>| has_sub(lowercase(trim(#[trigger] labels[i].text)), t),
        ).len() by {
        lemma_label_term_points_count(lowercase(trim(labels[i].text)), terms);
    }
}

/// The attribute points of an element: for each attribute, its weight
/// times the number of search terms the lowercased attribute contains (14
/// for the aria label, 13 the placeholder, 11 the id, 10 each the name,
/// test id and cy id, 9 the title, 8 the trimmed text, 3 the class).
pub proof fn lemma_terms_points_by_attribute(e: ElementView, terms: Seq<Seq<char>>)
    ensures
        terms_points(e, terms) == 14 * terms.filter(|t: Seq<char>| has_sub(low_attr(e, ARIA_LABEL()), t)).len()
            + 13 * terms.filter(|t: Seq<char>| has_sub(low_attr(e, PLACEHOLDER()), t)).len()
            + 11 * terms.filter(|t: Seq<char>| has_sub(low_attr(e, ID()), t)).len()
            + 10 * terms.filter(|t: Seq<char>| has_sub(low_attr(e, NAME()), t)).len()
            + 10 * terms.filter(|t: Seq<char>| has_sub(low_attr(e, TESTID()), t)).len()
            + 10 * terms.filter(|t: Seq<char>| has_sub(low_attr(e, CY()), t)).len()
            + 9 * terms.filter(|t: Seq<char>| has_sub(low_attr(e, TITLE()), t)).len()
            + 8 * terms.filter(|t: Seq<char>| has_sub(low_text(e), t)).len()
            + 3 * terms.filter(|t: Seq<char>| has_sub(low_attr(e, CLASS()), t)).len(),
    decreases terms.len(),
{
    if terms.len() > 0 {
        let rest = terms.drop_last();
        lemma_terms_points_by_attribute(e, rest);
        reveal(Seq::filter);
        let f0 = |t: Seq<char>| has_sub(low_attr(e, ARIA_LABEL()), t);
        assert(terms.filter(f0).len() == rest.filter(f0).len() + (if f0(terms.last()) { 1int } else { 0int }));
        let f1 = |t: Seq<char>| has_sub(low_attr(e, PLACEHOLDER()), t);
        assert(terms.filter(f1).len() == rest.filter(f1).len() + (if f1(terms.last()) { 1int } else { 0int }));
        let f2 = |t: Seq<char>| has_sub(low_attr(e, ID()), t);
        assert(terms.filter(f2).len() == rest.filter(f2).len() + (if f2(terms.last()) { 1int } else { 0int }));
        let f3 = |t: Seq<char>| has_sub(low_attr(e, NAME()), t);
        assert(terms.filter(f3).len() == rest.filter(f3).len() + (if f3(terms.last()) { 1int } else { 0int }));
        let f4 = |t: Seq<char>| has_sub(low_attr(e, TESTID()), t);
        assert(terms.filter(f4).len() == rest.filter(f4).len() + (if f4(terms.last()) { 1int } else { 0int }));
        let f5 = |t: Seq<char>| has_sub(low_attr(e, CY()), t);
        assert(terms.filter(f5).len() == rest.filter(f5).len() + (if f5(terms.last()) { 1int } else { 0int }));
        let f6 = |t: Seq<char>| has_sub(low_attr(e, TITLE()), t);
        assert(terms.filter(f6).len() == rest.filter(f6).len() + (if f6(terms.last()) { 1int } else { 0int }));
        let f7 = |t: Seq<char>| has_sub(low_text(e), t);
        assert(terms.filter(f7).len() == rest.filter(f7).len() + (if f7(terms.last()) { 1int } else { 0int }));
        let f8 = |t: Seq<char>| has_sub(low_attr(e, CLASS()), t);
        assert(terms.filter(f8).len() == rest.filter(f8).len() + (if f8(terms.last()) { 1int } else { 0int }));
    }
}

/// The search terms of an instruction are its whitespace-separated words
/// longer than one byte, in order.
pub proof fn lemma_search_terms_words(instr: Seq<char>)
    ensures
        search_terms(instr) == words(instr).filter(|w: Seq<char>| utf8_len(w) > 1),
{
    lemma_long_words_filter(words(instr));
}

proof fn lemma_long_words_filter(ws: Seq<Seq<char>>)
    ensures
        long_words(ws) == ws.filter(|w: Seq<char>| utf8_len(w) > 1),
    decreases ws.len(),
{
    reveal(Seq::filter);
    if ws.len() > 0 {
        lemma_long_words_filter(ws.drop_last());
    }
}

/// The role of an element: its lowercased `role` attribute when it has one;
/// otherwise a button for buttons and for inputs of type submit or button,
/// a check box or radio button for inputs of those types, a text box for
/// other inputs and for text areas, a link for anchors, a combo box for
/// selects, and generic for anything else.
pub proof fn lemma_role_by_tag(e: ElementView)
    ensures
        low_attr(e, ROLE()).len() > 0 ==> semantic_role(e) == low_attr(e, ROLE()),
        low_attr(e, ROLE()).len() == 0 ==> {
            let ty = low_attr(e, TYPE());
            &&& e.tag == "button"@ ==> semantic_role(e) == "button"@
            &&& e.tag == "a"@ ==> semantic_role(e) == "link"@
            &&& e.tag == "textarea"@ ==> semantic_role(e) == "textbox"@
            &&& e.tag == "select"@ ==> semantic_role(e) == "combobox"@
            &&& e.tag == "input"@ ==> semantic_role(e) == (if ty == "submit"@ || ty == "button"@ {
                "button"@
            } else if ty == "checkbox"@ {
                "checkbox"@
            } else if ty == "radio"@ {
                "radio"@
            } else {
                "textbox"@
            })
            &&& (e.tag != "button"@ && e.tag != "a"@ && e.tag != "textarea"@ && e.tag != "select"@
                && e.tag != "input"@) ==> semantic_role(e) == "generic"@
        },
{
    reveal_strlit("input");
    reveal_strlit("button");
    reveal_strlit("a");
    reveal_strlit("textarea");
    reveal_strlit("select");
    assert("input"@.len() == 5 && "button"@.len() == 6 && "a"@.len() == 1 && "textarea"@.len() == 8);
    assert("select"@.len() == 6 && "select"@[0] != "button"@[0]);
}

/// An element with an id is selected by it (`#` and the lowercased id);
/// one with none of the attributes a selector can use is selected by its
/// tag.
pub proof fn lemma_selector_prefers_id(e: ElementView)
    ensures
        low_attr(e, ID()).len() > 0 ==> selector_of(e) == "#"@ + low_attr(e, ID()),
        (low_attr(e, ID()).len() == 0 && low_attr(e, TESTID()).len() == 0 && low_attr(e, CY()).len() == 0
            && low_attr(e, NAME()).len() == 0 && low_attr(e, PLACEHOLDER()).len() == 0
            && low_attr(e, ARIA_LABEL()).len() == 0 && low_attr(e, CLASS()).len() == 0) ==> selector_of(e) == e.tag,
{
}

/// The role and purpose bonuses: a role or purpose that the instruction
/// names and the element has earns its bonus (8 for a named role: button,
/// link, input as a text box, checkbox; 12 for a search, submit, login,
/// email or password element); an element earning none gets no bonus, and
/// the bonuses never exceed their sum.
pub proof fn lemma_role_bonuses(instr: Seq<char>, e: ElementView)
    ensures
        (has_sub(instr, "button"@) && semantic_role(e) == "button"@) ==> role_points(instr, e) >= 8,
        (has_sub(instr, "link"@) && semantic_role(e) == "link"@) ==> role_points(instr, e) >= 8,
        (has_sub(instr, "input"@) && semantic_role(e) == "textbox"@) ==> role_points(instr, e) >= 8,
        (has_sub(instr, "checkbox"@) && semantic_role(e) == "checkbox"@) ==> role_points(instr, e) >= 8,
        (has_sub(instr, "search"@) && (low_attr(e, TYPE()) == "search"@ || has_sub(low_attr(e, ID()), "search"@) || has_sub(low_attr(e, PLACEHOLDER()), "search"@))) ==> role_points(instr, e) >= 12,
        (has_sub(instr, "submit"@) && (low_attr(e, TYPE()) == "submit"@ || has_sub(low_text(e), "submit"@))) ==> role_points(instr, e) >= 12,
        (has_sub(instr, "login"@) && (has_sub(low_attr(e, ID()), "login"@) || has_sub(low_attr(e, CLASS()), "login"@) || has_sub(low_text(e), "login"@) || has_sub(low_text(e), "sign in"@))) ==> role_points(instr, e) >= 12,
        (has_sub(instr, "email"@) && (low_attr(e, TYPE()) == "email"@ || has_sub(low_attr(e, ID()), "email"@) || has_sub(low_attr(e, NAME()), "email"@) || has_sub(low_attr(e, PLACEHOLDER()), "email"@))) ==> role_points(instr, e) >= 12,
        (has_sub(instr, "password"@) && (low_attr(e, TYPE()) == "password"@ || has_sub(low_attr(e, ID()), "password"@) || has_sub(low_attr(e, NAME()), "password"@))) ==> role_points(instr, e) >= 12,
        (!(has_sub(instr, "button"@) && semantic_role(e) == "button"@) && !(has_sub(instr, "link"@) && semantic_role(e) == "link"@) && !(has_sub(instr, "input"@) && semantic_role(e) == "textbox"@) && !(has_sub(instr, "checkbox"@) && semantic_role(e) == "checkbox"@) && !(has_sub(instr, "search"@) && (low_attr(e, TYPE()) == "search"@ || has_sub(low_attr(e, ID()), "search"@) || has_sub(low_attr(e, PLACEHOLDER()), "search"@))) && !(has_sub(instr, "submit"@) && (low_attr(e, TYPE()) == "submit"@ || has_sub(low_text(e), "submit"@))) && !(has_sub(instr, "login"@) && (has_sub(low_attr(e, ID()), "login"@) || has_sub(low_attr(e, CLASS()), "login"@) || has_sub(low_text(e), "login"@) || has_sub(low_text(e), "sign in"@))) && !(has_sub(instr, "email"@) && (low_attr(e, TYPE()) == "email"@ || has_sub(low_attr(e, ID()), "email"@) || has_sub(low_attr(e, NAME()), "email"@) || has_sub(low_attr(e, PLACEHOLDER()), "email"@))) && !(has_sub(instr, "password"@) && (low_attr(e, TYPE()) == "password"@ || has_sub(low_attr(e, ID()), "password"@) || has_sub(low_attr(e, NAME()), "password"@)))) ==> role_points(instr, e) == 0,
        0 <= role_points(instr, e) <= 92,
{
}

/// The score of an element adds its attribute points, its label points and
/// its role and purpose bonuses.
pub proof fn lemma_score_parts(instr: Seq<char>, terms: Seq<Seq<char>>, labels: Seq<ElementView>, e: ElementView)
    ensures
        element_score(instr, terms, labels, e) == terms_points(e, terms) + label_points(e, labels, terms)
            + role_points(instr, e),
{
}

/// The candidates of a search are the elements with a positive score, in
/// document order, each made into a candidate.
pub proof fn lemma_candidates_are_positive_elements(instr: Seq<char>, terms: Seq<Seq<char>>, labels: Seq<ElementView>, els: Seq<ElementView>, n: nat)
    requires
        n <= els.len(),
    ensures
        candidates_upto(instr, terms, labels, els, n) == els.take(n as int).filter(
            |e: ElementView| element_score(instr, terms, labels, e) > 0,
        ).map_values(|e: ElementView| candidate_of(instr, terms, labels, e)),
    decreases n,
{
    let p = |e: ElementView| element_score(instr, terms, labels, e) > 0;
    let f = |e: ElementView| candidate_of(instr, terms, labels, e);
    reveal(Seq::filter);
    if n == 0 {
        assert(els.take(0).filter(p) =~= Seq::<ElementView>::empty());
        assert(els.take(0).filter(p).map_values(f) =~= Seq::<CandidateView>::empty());
    } else {
        lemma_candidates_are_positive_elements(instr, terms, labels, els, (n - 1) as nat);
        let t = els.take(n as int);
        assert(t.drop_last() =~= els.take(n - 1));
        assert(t.last() == els[n - 1]);
        let prev = els.take(n - 1).filter(p);
        if p(els[n - 1]) {
            assert(t.filter(p) == prev.push(els[n - 1]));
            assert(prev.push(els[n - 1]).map_values(f) =~= prev.map_values(f).push(f(els[n - 1])));
        } else {
            assert(t.filter(p) == prev);
        }
    }
}

} // verus!
