//! Access to parsed HTML documents. The parsing and the CSS selector
//! matching are scraper's; what the library reads of the selected elements
//! comes back as plain values.
use vstd::prelude::*;

verus! {

/// An element selected from a document: its tag name, the values of the
/// attributes that were asked for (in the order asked), and its text (the
/// concatenation of its descendant text nodes).
pub struct ElementData {
    pub tag: String,
    pub attrs: Vec<Option<String>>,
    pub text: String,
}

/// The plain-value view of an `ElementData`.
pub struct ElementView {
    pub tag: Seq<char>,
    pub attrs: Seq<Option<Seq<char>>>,
    pub text: Seq<char>,
}

/// The view of an optional string.
pub open spec fn opt_view(o: Option<String>) -> Option<Seq<char>> {
    match o {
        Some(s) => Some(s@),
        None => None,
    }
}

impl View for ElementData {
    type V = ElementView;

    open spec fn view(&self) -> ElementView {
        ElementView {
            tag: self.tag@,
            attrs: self.attrs@.map_values(|a: Option<String>| opt_view(a)),
            text: self.text@,
        }
    }
}

/// The views of a sequence of selected elements.
pub open spec fn elements_view(v: Seq<ElementData>) -> Seq<ElementView> {
    v.map_values(|e: ElementData| e@)
}

/// The views of a sequence of strings.
pub open spec fn strings_view(v: Seq<&str>) -> Seq<Seq<char>> {
    v.map_values(|s: &str| s@)
}

/// What scraper selects: the elements of the document parsed from `html`
/// that match the CSS selector `selector`, in document order, each with the
/// values of the attributes named in `attr_names`; `None` when the selector
/// does not parse.
pub uninterp spec fn selected_elements(
    html: Seq<char>,
    selector: Seq<char>,
    attr_names: Seq<Seq<char>>,
) -> Option<Seq<ElementView>>;

/// Parses `html` as a document with scraper (`Html::parse_document`),
/// parses `selector` (`Selector::parse`) and selects the matching elements
/// (`Html::select`); of each it reads the tag name, the attributes named in
/// `attr_names` (`Element::attr`) and the collected text (`ElementRef::text`).
/// The contract claims that the result is `selected_elements` of the
/// arguments, and that each element carries one attribute slot per name
/// asked for.
#[verifier::external_body]
pub(crate) fn select_elements(html: &str, selector: &str, attr_names: &[&str]) -> (r: Option<Vec<ElementData>>)
    ensures
        r matches Some(v) ==> selected_elements(html@, selector@, strings_view(attr_names@))
            == Some(elements_view(v@)),
        r is None ==> selected_elements(html@, selector@, strings_view(attr_names@)) is None,
        r matches Some(v) ==> forall|i: int| 0 <= i < v@.len() ==> #[trigger] v@[i].attrs@.len() == attr_names@.len(),
{
    let sel = scraper::Selector::parse(selector).ok()?;
    let doc = scraper::Html::parse_document(html);
    let mut out = Vec::new();
    for e in doc.select(&sel) {
        let mut attrs = Vec::new();
        for n in attr_names {
            attrs.push(e.value().attr(n).map(|v| v.to_string()));
        }
        out.push(ElementData { tag: e.value().name().to_string(), attrs, text: e.text().collect() });
    }
    Some(out)
}


/// A node of a document subtree: an element (its tag name), a text node
/// (its text) or anything else (a comment, a doctype).
pub enum DomNode {
    Element(String),
    Text(String),
    Other,
}

/// A node of a subtree in document order, with its depth in the document.
pub struct DomToken {
    pub depth: usize,
    pub node: DomNode,
}

/// The plain-value view of a `DomNode`.
pub enum NodeView {
    Element(Seq<char>),
    Text(Seq<char>),
    Other,
}

/// The plain-value view of a `DomToken`.
pub struct TokenView {
    pub depth: nat,
    pub node: NodeView,
}

impl View for DomToken {
    type V = TokenView;

    open spec fn view(&self) -> TokenView {
        TokenView {
            depth: self.depth as nat,
            node: match self.node {
                DomNode::Element(n) => NodeView::Element(n@),
                DomNode::Text(t) => NodeView::Text(t@),
                DomNode::Other => NodeView::Other,
            },
        }
    }
}

/// The views of a sequence of tokens.
pub open spec fn tokens_view(v: Seq<DomToken>) -> Seq<TokenView> {
    v.map_values(|t: DomToken| t@)
}

/// What scraper gives for the first element of the document parsed from
/// `html` that matches `selector`: that element and all its descendants in
/// document order, each with its depth; `None` when the selector does not
/// parse or nothing matches.
pub uninterp spec fn first_match_subtree(html: Seq<char>, selector: Seq<char>) -> Option<
    Seq<TokenView>,
>;

/// Parses `html` with scraper (`Html::parse_document`), takes the first
/// element matching `selector` (`Selector::parse`, `Html::select`) and walks
/// it with `descendants`, reading each node's kind, tag name or text, and
/// its depth (`ancestors().count()`). The contract claims that the result is
/// `first_match_subtree` of the arguments.
#[verifier::external_body]
pub(crate) fn first_match_tokens(html: &str, selector: &str) -> (r: Option<Vec<DomToken>>)
    ensures
        r matches Some(v) ==> first_match_subtree(html@, selector@) == Some(tokens_view(v@)),
        r is None ==> first_match_subtree(html@, selector@) is None,
{
    let sel = scraper::Selector::parse(selector).ok()?;
    let doc = scraper::Html::parse_document(html);
    let root = doc.select(&sel).next()?;
    let mut out = Vec::new();
    for node in root.descendants() {
        let kind = match node.value() {
            scraper::Node::Element(e) => DomNode::Element(e.name().to_string()),
            scraper::Node::Text(t) => DomNode::Text(t.to_string()),
            _ => DomNode::Other,
        };
        out.push(DomToken { depth: node.ancestors().count(), node: kind });
    }
    Some(out)
}

} // verus!
