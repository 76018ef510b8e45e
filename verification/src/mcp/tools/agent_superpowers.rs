//! The agent tools: page observation and goal-directed actions.
use vstd::prelude::*;

use super::{Tool, ToolCall};
use super::catalog::{ToolKind, ToolSchema};
use crate::dom::{ElementData, ElementView, elements_view, opt_view, select_elements, selected_elements, strings_view};
use crate::hidden_gems::stagehand::{ElementSearch, CandidateView};
use crate::text::{chars_of, floor_prefix, floor_prefix_of, owned, str_equal, string_of, trim, trim_chars};

verus! {

/// The `browser_observe` tool.
pub struct BrowserObserveTool;

impl BrowserObserveTool {
    pub fn new() -> Self {
        BrowserObserveTool
    }
}

impl Tool for BrowserObserveTool {
    open spec fn kind(&self) -> ToolKind {
        ToolKind::Observe
    }

    fn name(&self) -> (r: &'static str) {
        ToolKind::Observe.name()
    }

    fn description(&self) -> (r: &'static str) {
        ToolKind::Observe.description()
    }

    fn input_schema(&self) -> (r: ToolSchema) {
        ToolKind::Observe.input_schema()
    }

    fn call(&self, _arguments: &serde_json::Value) -> (r: ToolCall) {
        ToolCall::routed()
    }
}

/// The `browser_act` tool.
pub struct BrowserActTool;

impl BrowserActTool {
    pub fn new() -> Self {
        BrowserActTool
    }
}

impl Tool for BrowserActTool {
    open spec fn kind(&self) -> ToolKind {
        ToolKind::Act
    }

    fn name(&self) -> (r: &'static str) {
        ToolKind::Act.name()
    }

    fn description(&self) -> (r: &'static str) {
        ToolKind::Act.description()
    }

    fn input_schema(&self) -> (r: ToolSchema) {
        ToolKind::Act.input_schema()
    }

    fn call(&self, _arguments: &serde_json::Value) -> (r: ToolCall) {
        ToolCall::routed()
    }
}


/// The elements an observation inventories.
pub open spec fn observed_selector() -> Seq<char> {
    "input, button, a, textarea, select, [role='button'], [role='textbox'], [role='link'], form"@
}

/// The attributes an observation reads, in slot order: `id`, `type`,
/// `placeholder`, `action`, `href`.
pub open spec fn observed_attrs() -> Seq<Seq<char>> {
    seq!["id"@, "type"@, "placeholder"@, "action"@, "href"@]
}

/// An attribute slot's value, empty when the element lacks it.
pub open spec fn attr_or_empty(e: ElementView, i: int) -> Seq<char> {
    match e.attrs[i] {
        Some(v) => v,
        None => Seq::empty(),
    }
}

/// One inventoried element.
pub enum Observation {
    Form { id: String, action: String },
    Input { tag: String, id: String, input_type: String, placeholder: String },
    Button { id: String, text: String },
    Link { text: String, href: String },
}

/// The plain-value view of an observation.
pub enum ObservationView {
    Form { id: Seq<char>, action: Seq<char> },
    Input { tag: Seq<char>, id: Seq<char>, input_type: Seq<char>, placeholder: Seq<char> },
    Button { id: Seq<char>, text: Seq<char> },
    Link { text: Seq<char>, href: Seq<char> },
}

impl View for Observation {
    type V = ObservationView;

    open spec fn view(&self) -> ObservationView {
        match self {
            Observation::Form { id, action } => ObservationView::Form { id: id@, action: action@ },
            Observation::Input { tag, id, input_type, placeholder } => ObservationView::Input {
                tag: tag@,
                id: id@,
                input_type: input_type@,
                placeholder: placeholder@,
            },
            Observation::Button { id, text } => ObservationView::Button { id: id@, text: text@ },
            Observation::Link { text, href } => ObservationView::Link { text: text@, href: href@ },
        }
    }
}

/// The views of a sequence of observations.
pub open spec fn observations_view(v: Seq<Observation>) -> Seq<ObservationView> {
    v.map_values(|o: Observation| o@)
}

/// An inventory in progress: the counts of forms, inputs, buttons and
/// links, and the observations.
pub struct InventoryView {
    pub forms: nat,
    pub inputs: nat,
    pub buttons: nat,
    pub links: nat,
    pub observations: Seq<ObservationView>,
}

/// Whether a tag is a form field.
pub open spec fn is_field_tag(tag: Seq<char>) -> bool {
    tag == "input"@ || tag == "textarea"@ || tag == "select"@
}

/// The inventory after element `e`. Forms, fields, buttons and links are
/// counted; each is recorded, links only up to the twentieth; a button's or
/// recorded link's text is its trimmed text cut at the last character
/// boundary at or before byte 50.
pub open spec fn inventory_step(v: InventoryView, e: ElementView) -> InventoryView {
    let cut = floor_prefix(trim(e.text), 50);
    if e.tag == "form"@ {
        InventoryView {
            forms: v.forms + 1,
            observations: v.observations.push(
                ObservationView::Form { id: attr_or_empty(e, 0), action: attr_or_empty(e, 3) },
            ),
            ..v
        }
    } else if is_field_tag(e.tag) {
        InventoryView {
            inputs: v.inputs + 1,
            observations: v.observations.push(
                ObservationView::Input {
                    tag: e.tag,
                    id: attr_or_empty(e, 0),
                    input_type: attr_or_empty(e, 1),
                    placeholder: attr_or_empty(e, 2),
                },
            ),
            ..v
        }
    } else if e.tag == "button"@ {
        InventoryView {
            buttons: v.buttons + 1,
            observations: v.observations.push(ObservationView::Button { id: attr_or_empty(e, 0), text: cut }),
            ..v
        }
    } else if e.tag == "a"@ {
        if v.links + 1 <= 20 {
            InventoryView {
                links: v.links + 1,
                observations: v.observations.push(ObservationView::Link { text: cut, href: attr_or_empty(e, 4) }),
                ..v
            }
        } else {
            InventoryView { links: v.links + 1, ..v }
        }
    } else {
        v
    }
}

/// The inventory of the first `n` elements.
pub open spec fn inventory_upto(els: Seq<ElementView>, n: nat) -> InventoryView
    decreases n,
{
    if n == 0 {
        InventoryView { forms: 0, inputs: 0, buttons: 0, links: 0, observations: Seq::empty() }
    } else {
        inventory_step(inventory_upto(els, (n - 1) as nat), els[n - 1])
    }
}

/// The inventory of a page.
pub open spec fn page_inventory(html: Seq<char>) -> InventoryView {
    match selected_elements(html, observed_selector(), observed_attrs()) {
        Some(v) => inventory_upto(v, v.len()),
        None => inventory_upto(Seq::empty(), 0),
    }
}

/// An observed page: the counts and the observations.
pub struct PageObservation {
    pub forms: usize,
    pub inputs: usize,
    pub buttons: usize,
    pub links: usize,
    pub observations: Vec<Observation>,
}

/// The value of attribute slot `i`, or empty.
fn slot(e: &ElementData, i: usize) -> (r: String)
    requires
        i < e.attrs@.len(),
    ensures
        r@ == attr_or_empty(e@, i as int),
{
    assert(e@.attrs[i as int] == opt_view(e.attrs@[i as int]));
    match &e.attrs[i] {
        Some(v) => v.clone(),
        None => String::new(),
    }
}

impl PageObservation {
    /// The view of the inventory so far.
    pub open spec fn inventory(&self) -> InventoryView {
        InventoryView {
            forms: self.forms as nat,
            inputs: self.inputs as nat,
            buttons: self.buttons as nat,
            links: self.links as nat,
            observations: observations_view(self.observations@),
        }
    }

    /// Adds element `e` to the inventory.
    fn add(&mut self, e: &ElementData)
        requires
            e.attrs@.len() == 5,
            old(self).forms + old(self).inputs + old(self).buttons + old(self).links < usize::MAX,
        ensures
            final(self).inventory() == inventory_step(old(self).inventory(), e@),
            final(self).forms + final(self).inputs + final(self).buttons + final(self).links
                == old(self).forms + old(self).inputs + old(self).buttons + old(self).links + (
            if inventory_step(old(self).inventory(), e@) == old(self).inventory() { 0int } else { 1int }),
    {
        let ghost before = observations_view(self.observations@);
        let tag = e.tag.as_str();
        if str_equal(tag, "form") {
            self.observations.push(Observation::Form { id: slot(e, 0), action: slot(e, 3) });
            self.forms = self.forms + 1;
            assert(observations_view(self.observations@) =~= before.push(self.observations@.last()@));
        } else if str_equal(tag, "input") || str_equal(tag, "textarea") || str_equal(tag, "select") {
            self.observations.push(
                Observation::Input { tag: e.tag.clone(), id: slot(e, 0), input_type: slot(e, 1), placeholder: slot(e, 2) },
            );
            self.inputs = self.inputs + 1;
            assert(observations_view(self.observations@) =~= before.push(self.observations@.last()@));
        } else if str_equal(tag, "button") {
            let cs = chars_of(e.text.as_str());
            let t = trim_chars(cs.as_slice());
            let cut = floor_prefix_of(t.as_slice(), 50);
            self.observations.push(Observation::Button { id: slot(e, 0), text: string_of(cut.as_slice()) });
            self.buttons = self.buttons + 1;
            assert(observations_view(self.observations@) =~= before.push(self.observations@.last()@));
        } else if str_equal(tag, "a") {
            if self.links < 20 {
                let cs = chars_of(e.text.as_str());
                let t = trim_chars(cs.as_slice());
                let cut = floor_prefix_of(t.as_slice(), 50);
                self.observations.push(Observation::Link { text: string_of(cut.as_slice()), href: slot(e, 4) });
                assert(observations_view(self.observations@) =~= before.push(self.observations@.last()@));
            }
            self.links = self.links + 1;
        }
    }
}

/// Inventories the interactive elements of a page: its forms, form fields
/// (`input`, `textarea`, `select`), buttons and links (the elements that
/// also match by role are not inventoried).
pub fn observe_page(html: &str) -> (r: PageObservation)
    ensures
        r.inventory() == page_inventory(html@),
{
    let names: Vec<&str> = vec!["id", "type", "placeholder", "action", "href"];
    proof {
        assert(strings_view(names@) =~= observed_attrs());
    }
    let els: Vec<ElementData> = match select_elements(
        html,
        "input, button, a, textarea, select, [role='button'], [role='textbox'], [role='link'], form",
        names.as_slice(),
    ) {
        Some(v) => v,
        None => Vec::new(),
    };
    let ghost ev = elements_view(els@);
    proof {
        assert(page_inventory(html@) == inventory_upto(ev, ev.len()));
    }
    let mut o = PageObservation { forms: 0, inputs: 0, buttons: 0, links: 0, observations: Vec::new() };
    proof {
        assert(observations_view(o.observations@) =~= Seq::<ObservationView>::empty());
        assert(o.inventory() == inventory_upto(ev, 0));
    }
    let mut i: usize = 0;
    while i < els.len()
        invariant
            i <= els@.len(),
            ev == elements_view(els@),
            page_inventory(html@) == inventory_upto(ev, ev.len()),
            forall|j: int| 0 <= j < els@.len() ==> #[trigger] els@[j].attrs@.len() == 5,
            o.inventory() == inventory_upto(ev, i as nat),
            o.forms + o.inputs + o.buttons + o.links <= i,
        decreases els@.len() - i,
    {
        assert(ev[i as int] == els@[i as int]@);
        o.add(&els[i]);
        i = i + 1;
    }
    o
}

/// An inventory counts the forms, the form fields (`input`, `textarea`,
/// `select`), the buttons and the links among the elements, and records one
/// observation for each form, field and button and for at most the first
/// twenty links.
pub proof fn lemma_inventory_counts(els: Seq<ElementView>, n: nat)
    requires
        n <= els.len(),
    ensures
        ({
            let v = inventory_upto(els, n);
            let seen = els.take(n as int);
            &&& v.forms == seen.filter(|e: ElementView| e.tag == "form"@).len()
            &&& v.inputs == seen.filter(
                |e: ElementView| e.tag == "input"@ || e.tag == "textarea"@ || e.tag == "select"@,
            ).len()
            &&& v.buttons == seen.filter(|e: ElementView| e.tag == "button"@).len()
            &&& v.links == seen.filter(|e: ElementView| e.tag == "a"@).len()
            &&& v.observations.len() == v.forms + v.inputs + v.buttons + (if v.links <= 20 { v.links } else { 20 })
        }),
    decreases n,
{
    reveal(Seq::filter);
    reveal_strlit("form");
    reveal_strlit("input");
    reveal_strlit("textarea");
    reveal_strlit("select");
    reveal_strlit("button");
    reveal_strlit("a");
    assert("form"@.len() == 4 && "input"@.len() == 5 && "textarea"@.len() == 8 && "select"@.len() == 6);
    assert("button"@.len() == 6 && "a"@.len() == 1 && "select"@[0] != "button"@[0]);
    let seen = els.take(n as int);
    if n == 0 {
        assert(seen =~= Seq::<ElementView>::empty());
    } else {
        lemma_inventory_counts(els, (n - 1) as nat);
        assert(seen.drop_last() =~= els.take(n - 1));
        assert(seen.last() == els[n - 1]);
    }
}

/// Whether an observation also looks for the element an instruction names:
/// unless the instruction is the default full-page analysis.
pub fn wants_element_match(instruction: &str) -> (r: bool)
    ensures
        r == (instruction@ != "analyze page"@),
{
    !str_equal(instruction, "analyze page")
}

/// What an action does to its target.
pub enum ActStep {
    Click,
    Type(String),
    Focus,
}

/// The plan of an action: no target, or the target's selector and role and
/// what to do to it.
pub enum ActPlan {
    NoTarget,
    Act { selector: String, role: String, step: ActStep },
}

/// The plain-value view of an action plan.
pub enum ActView {
    NoTarget,
    Click(Seq<char>, Seq<char>),
    Type(Seq<char>, Seq<char>, Seq<char>),
    Focus(Seq<char>, Seq<char>),
}

impl View for ActPlan {
    type V = ActView;

    open spec fn view(&self) -> ActView {
        match self {
            ActPlan::NoTarget => ActView::NoTarget,
            ActPlan::Act { selector, role, step } => match step {
                ActStep::Click => ActView::Click(selector@, role@),
                ActStep::Type(v) => ActView::Type(selector@, role@, v@),
                ActStep::Focus => ActView::Focus(selector@, role@),
            },
        }
    }
}

/// The plan for a goal whose element search found `cands`: no target
/// without a candidate; else the best candidate is clicked when it is a
/// button or a link, typed into when it is a text box and a non-empty value
/// is given, focused when it is a text box and there is no such value, and
/// clicked otherwise.
pub open spec fn act_plan(cands: Seq<CandidateView>, value: Option<Seq<char>>) -> ActView {
    if cands.len() == 0 {
        ActView::NoTarget
    } else {
        let c = cands[0];
        if c.role == "button"@ || c.role == "link"@ {
            ActView::Click(c.selector, c.role)
        } else if c.role == "textbox"@ {
            match value {
                Some(v) => if v.len() > 0 {
                    ActView::Type(c.selector, c.role, v)
                } else {
                    ActView::Focus(c.selector, c.role)
                },
                None => ActView::Focus(c.selector, c.role),
            }
        } else {
            ActView::Click(c.selector, c.role)
        }
    }
}

/// Plans the action for a goal from its element search and the value to
/// type, if any.
pub fn plan_act(search: &ElementSearch, value: Option<&str>) -> (r: ActPlan)
    ensures
        r@ == act_plan(search.candidates@.map_values(|c: crate::hidden_gems::stagehand::ElementCandidate| c@), match value {
            Some(v) => Some(v@),
            None => None,
        }),
{
    if search.candidates.len() == 0 {
        return ActPlan::NoTarget;
    }
    let c = &search.candidates[0];
    assert(search.candidates@.map_values(|c: crate::hidden_gems::stagehand::ElementCandidate| c@)[0] == c@);
    let role = c.role.as_str();
    let selector = c.selector.clone();
    let step = if str_equal(role, "button") || str_equal(role, "link") {
        ActStep::Click
    } else if str_equal(role, "textbox") {
        match value {
            Some(v) => if !v.is_empty() {
                ActStep::Type(owned(v))
            } else {
                ActStep::Focus
            },
            None => ActStep::Focus,
        }
    } else {
        ActStep::Click
    };
    ActPlan::Act { selector, role: c.role.clone(), step }
}

/// An action always targets the best candidate, and only a text box is
/// typed into: with the value given, exactly when that value is not empty;
/// a text box without such a value is focused, and any other element is
/// clicked. Without a candidate there is no target.
pub proof fn lemma_act_targets_best(cands: Seq<CandidateView>, value: Option<Seq<char>>)
    ensures
        (act_plan(cands, value) == ActView::NoTarget) <==> cands.len() == 0,
        cands.len() > 0 ==> match act_plan(cands, value) {
            ActView::Click(sel, role) => sel == cands[0].selector && role == cands[0].role
                && role != "textbox"@,
            ActView::Type(sel, role, v) => sel == cands[0].selector && role == cands[0].role
                && role == "textbox"@ && value == Some(v) && v.len() > 0,
            ActView::Focus(sel, role) => sel == cands[0].selector && role == cands[0].role
                && role == "textbox"@ && (value is None || value->0.len() == 0),
            ActView::NoTarget => false,
        },
        cands.len() > 0 && cands[0].role == "textbox"@ && value is Some && value->0.len() > 0
            ==> act_plan(cands, value) == ActView::Type(cands[0].selector, cands[0].role, value->0),
{
    reveal_strlit("textbox");
    reveal_strlit("button");
    reveal_strlit("link");
    assert("textbox"@.len() == 7 && "button"@.len() == 6 && "link"@.len() == 4);
}

} // verus!
