//! The tools of the server and the registry that lists and dispatches them.
use vstd::prelude::*;

pub mod catalog;
pub mod navigation;
pub mod extraction;
pub mod stealth;
pub mod research;
pub mod session;
pub mod error_recovery;
pub mod profile_persistence;
pub mod agent_superpowers;
pub mod hidden_gem_tools;
pub mod enterprise;

use catalog::{ToolKind, ToolSchema, all_tools, tool_description, tool_name, tool_named, tool_schema};
use crate::agent::AgentEnhancer;
use crate::engine::SessionManager;
use crate::extraction::AdvancedExtractor;
use crate::hidden_gems::{
    Crawl4AIDetector, FirecrawlExtractor, PlaywrightStealth, StagehandEngine,
    TrafilaturaExtractor, VectorMemory,
};
use crate::text::{chars_of, owned, str_equal, string_of};

verus! {

/// The JSON value type of `serde_json`, which carries a call's arguments.
#[verifier::external_type_specification]
#[verifier::external_body]
pub struct ExJsonValue(serde_json::Value);

/// The message with which a tool refuses a direct call: its calls are served
/// by the registry's dispatch.
pub open spec fn routed_message() -> Seq<char> {
    "Routed via ToolRegistry::call_tool"@
}

/// What a direct call of a tool does.
pub enum ToolCall {
    /// The call is refused with this message.
    Refused(String),
    /// The call runs a parallel research over the URLs of its arguments.
    RunResearch,
}

impl ToolCall {
    /// The refusal of a tool whose calls the registry serves.
    pub fn routed() -> (r: Self)
        ensures
            r matches ToolCall::Refused(m) && m@ == routed_message(),
    {
        ToolCall::Refused(owned("Routed via ToolRegistry::call_tool"))
    }
}

/// A tool the server offers: its name, description and argument schema,
/// fixed by the kind of tool it is, and what a direct call of it does.
pub trait Tool {
    /// Which tool this is.
    spec fn kind(&self) -> ToolKind;

    fn name(&self) -> (r: &'static str)
        ensures
            r@ == tool_name(self.kind()),
    ;

    fn description(&self) -> (r: &'static str)
        ensures
            r@ == tool_description(self.kind()),
    ;

    fn input_schema(&self) -> (r: ToolSchema)
        ensures
            r@ == tool_schema(self.kind()),
    ;

    /// Calls the tool directly with `arguments`: the research tool runs its
    /// research; every other tool refuses, as the registry serves it.
    fn call(&self, arguments: &serde_json::Value) -> (r: ToolCall)
        ensures
            self.kind() == ToolKind::Research ==> r is RunResearch,
            self.kind() != ToolKind::Research ==> (r matches ToolCall::Refused(m) && m@ == routed_message()),
    ;
}


/// The tools `register_tools` registers, in order: all of them, the
/// fingerprint rotation tool only when stealth is enabled.
pub open spec fn registration(stealth_enabled: bool) -> Seq<ToolKind> {
    let all = all_tools();
    if stealth_enabled {
        all
    } else {
        all.remove(15)
    }
}

/// The tool list after registering `k`: a tool already listed keeps its
/// place (registration is keyed by name), a new one is added at the end.
pub open spec fn with_tool(s: Seq<ToolKind>, k: ToolKind) -> Seq<ToolKind> {
    if s.contains(k) {
        s
    } else {
        s.push(k)
    }
}

/// The tool list after registering each of `ks` in turn.
pub open spec fn with_tools(s: Seq<ToolKind>, ks: Seq<ToolKind>) -> Seq<ToolKind>
    decreases ks.len(),
{
    if ks.len() == 0 {
        s
    } else {
        with_tool(with_tools(s, ks.drop_last()), ks.last())
    }
}

/// The tool whose handler serves a call of the tool named `name`, given the
/// registered tools: the schema extraction tool is served by the extraction
/// handler; the research tool only once it is registered; every other tool
/// by its own handler, registered or not; an unknown name by none.
pub open spec fn handler_for(name: Seq<char>, registered: Seq<ToolKind>) -> Option<ToolKind> {
    match tool_named(name) {
        Some(ToolKind::FirecrawlExtract) => Some(ToolKind::Extract),
        Some(ToolKind::Research) => if registered.contains(ToolKind::Research) {
            Some(ToolKind::Research)
        } else {
            None
        },
        other => other,
    }
}

/// Why a tool call could not be dispatched.
pub enum ToolError {
    /// No tool of that name: `Tool '<name>' not found`.
    NotFound(String),
}

impl ToolError {
    /// The error message.
    pub fn message(&self) -> (r: String)
        ensures
            self matches ToolError::NotFound(n) ==> r@ == "Tool '"@ + n@ + "' not found"@,
    {
        match self {
            ToolError::NotFound(n) => {
                let mut cs = chars_of("Tool '");
                let nc = chars_of(n.as_str());
                crate::text::append_chars(&mut cs, nc.as_slice());
                let tail = chars_of("' not found");
                crate::text::append_chars(&mut cs, tail.as_slice());
                string_of(cs.as_slice())
            },
        }
    }
}

/// The state of the server's health check.
pub struct HealthReport {
    pub active_sessions: usize,
    pub browser_launched: bool,
    pub has_active_tab: bool,
    pub memory_entries: usize,
    pub tools_registered: usize,
}

/// The tool registry: the registered tools and the engines the tools work
/// with.
pub struct ToolRegistry {
    /// The registered tools, in registration order.
    pub tools: Vec<ToolKind>,
    pub session_manager: SessionManager,
    pub extractor: AdvancedExtractor,
    pub agent: AgentEnhancer,
    pub memory: Vec<String>,
    pub stagehand: StagehandEngine,
    pub crawl4ai: Crawl4AIDetector,
    pub trafilatura: TrafilaturaExtractor,
    pub stealth_engine: PlaywrightStealth,
    pub vector_memory: VectorMemory,
    pub firecrawl: FirecrawlExtractor,
}

impl ToolRegistry {
    /// The registered tools, in registration order.
    pub open spec fn registered(&self) -> Seq<ToolKind> {
        self.tools@
    }

    /// The registry's invariant: no tool is registered twice, and the
    /// session manager and the memory keep theirs.
    pub open spec fn well_formed(&self) -> bool {
        &&& self.registered().no_duplicates()
        &&& self.session_manager.well_formed()
        &&& self.vector_memory.well_formed()
    }

    /// A registry with no tools registered, no sessions and empty memories.
    pub fn new() -> (r: Self)
        ensures
            r.well_formed(),
            r.registered() == Seq::<ToolKind>::empty(),
            r.session_manager.sessions@.len() == 0,
            !r.session_manager.browser_launched,
            r.memory@.len() == 0,
            r.vector_memory@.len() == 0,
            r.stealth_engine.rotation() == 0,
    {
        ToolRegistry {
            tools: Vec::new(),
            session_manager: SessionManager::new(),
            extractor: AdvancedExtractor::new(),
            agent: AgentEnhancer::new(),
            memory: Vec::new(),
            stagehand: StagehandEngine::new(),
            crawl4ai: Crawl4AIDetector::new(),
            trafilatura: TrafilaturaExtractor::new(),
            stealth_engine: PlaywrightStealth::new(),
            vector_memory: VectorMemory::new(),
            firecrawl: FirecrawlExtractor::new(),
        }
    }

    /// Registers `k`, unless a tool of that name is already registered.
    fn register(&mut self, k: ToolKind)
        requires
            old(self).well_formed(),
        ensures
            final(self).well_formed(),
            final(self).registered() == with_tool(old(self).registered(), k),
            final(self).session_manager == old(self).session_manager,
            final(self).memory == old(self).memory,
            final(self).vector_memory == old(self).vector_memory,
            final(self).stealth_engine == old(self).stealth_engine,
    {
        let mut i: usize = 0;
        while i < self.tools.len()
            invariant
                *self == *old(self),
                old(self).well_formed(),
                i <= self.tools@.len(),
                forall|j: int| 0 <= j < i ==> self.tools@[j] != k,
            decreases self.tools@.len() - i,
        {
            if self.tools[i] == k {
                assert(self.tools@[i as int] == k);
                assert(self.tools@.contains(k));
                return;
            }
            i = i + 1;
        }
        self.tools.push(k);
    }

    /// Registers the server's tools: all of them, the fingerprint rotation
    /// tool only when `stealth_enabled`. The proxy is not used here.
    pub fn register_tools(&mut self, stealth_enabled: bool, proxy: Option<String>)
        requires
            old(self).well_formed(),
        ensures
            final(self).well_formed(),
            final(self).registered() == with_tools(old(self).registered(), registration(stealth_enabled)),
            final(self).session_manager == old(self).session_manager,
            final(self).memory == old(self).memory,
            final(self).vector_memory == old(self).vector_memory,
    {
        let all = catalog::all_tool_kinds();
        let ghost reg = registration(stealth_enabled);
        let ghost start = self.registered();
        let mut order: Vec<ToolKind> = Vec::new();
        let mut i: usize = 0;
        while i < all.len()
            invariant
                all@ == all_tools(),
                i <= all@.len(),
                order@ == if stealth_enabled || i <= 15 {
                    all_tools().take(i as int)
                } else {
                    all_tools().take(i as int).remove(15)
                },
                self.well_formed(),
                self.registered() == with_tools(start, order@),
                self.session_manager == old(self).session_manager,
                self.memory == old(self).memory,
                self.vector_memory == old(self).vector_memory,
            decreases all@.len() - i,
        {
            let k = all[i];
            if stealth_enabled || i != 15 {
                self.register(k);
                let ghost before = order@;
                order.push(k);
                proof {
                    assert(order@.drop_last() == before);
                    if stealth_enabled || i < 15 {
                        assert(all_tools().take(i + 1) =~= all_tools().take(i as int).push(k));
                    } else {
                        assert(all_tools().take(i + 1).remove(15) =~= all_tools().take(i as int).remove(
                            15,
                        ).push(k));
                    }
                }
            } else {
                proof {
                    assert(all_tools().take(i + 1).remove(15) =~= all_tools().take(i as int));
                }
            }
            i = i + 1;
        }
        proof {
            assert(all_tools().take(27) =~= all_tools());
            assert(order@ =~= reg);
        }
    }

    /// The registered tools, in registration order.
    pub fn list_tools(&self) -> (r: Vec<ToolKind>)
        ensures
            r@ == self.registered(),
    {
        self.tools.clone()
    }

    /// Whether `k` is registered.
    fn is_registered(&self, k: ToolKind) -> (r: bool)
        ensures
            r == self.registered().contains(k),
    {
        let mut i: usize = 0;
        while i < self.tools.len()
            invariant
                i <= self.tools@.len(),
                forall|j: int| 0 <= j < i ==> self.tools@[j] != k,
            decreases self.tools@.len() - i,
        {
            if self.tools[i] == k {
                assert(self.tools@[i as int] == k);
                return true;
            }
            i = i + 1;
        }
        false
    }

    /// Which handler serves a call of the tool named `name`, or why none
    /// does.
    pub fn dispatch(&self, name: &str) -> (r: Result<ToolKind, ToolError>)
        ensures
            r matches Ok(k) ==> handler_for(name@, self.registered()) == Some(k),
            r matches Err(ToolError::NotFound(n)) ==> n@ == name@ && handler_for(
                name@,
                self.registered(),
            ) is None,
    {
        let all = catalog::all_tool_kinds();
        let mut i: usize = 0;
        while i < all.len()
            invariant
                all@ == all_tools(),
                i <= all@.len(),
                forall|j: int| 0 <= j < i ==> tool_name(#[trigger] all@[j]) != name@,
            decreases all@.len() - i,
        {
            let k = all[i];
            if str_equal(k.name(), name) {
                proof {
                    catalog::lemma_tool_named(k);
                }
                return match k {
                    ToolKind::FirecrawlExtract => Ok(ToolKind::Extract),
                    ToolKind::Research => if self.is_registered(ToolKind::Research) {
                        Ok(ToolKind::Research)
                    } else {
                        Err(ToolError::NotFound(owned(name)))
                    },
                    other => Ok(other),
                };
            }
            i = i + 1;
        }
        proof {
            if tool_named(name@) is Some {
                let k = tool_named(name@)->0;
                catalog::lemma_tool_named_inverse(name@);
                catalog::lemma_all_tools_complete(k);
                let j = choose|j: int| 0 <= j < all@.len() && all@[j] == k;
                assert(tool_name(all@[j]) != name@);
            }
        }
        Err(ToolError::NotFound(owned(name)))
    }

    /// Adds `note` to the registry's log of what it did.
    pub fn push_memory(&mut self, note: String)
        ensures
            final(self).memory@ == old(self).memory@.push(note),
            final(self).tools == old(self).tools,
            final(self).session_manager == old(self).session_manager,
            final(self).vector_memory == old(self).vector_memory,
    {
        self.memory.push(note);
    }

    /// The health check: the number of sessions, whether the browser runs,
    /// whether a tab is active (as the caller found), the number of log
    /// entries and of registered tools.
    pub fn health(&self, has_active_tab: bool) -> (r: HealthReport)
        ensures
            r.active_sessions == self.session_manager.sessions@.len(),
            r.browser_launched == self.session_manager.browser_launched,
            r.has_active_tab == has_active_tab,
            r.memory_entries == self.memory@.len(),
            r.tools_registered == self.registered().len(),
    {
        HealthReport {
            active_sessions: self.session_manager.sessions.len(),
            browser_launched: self.session_manager.browser_launched,
            has_active_tab,
            memory_entries: self.memory.len(),
            tools_registered: self.tools.len(),
        }
    }
}


/// No tool occurs twice in the catalogue.
pub proof fn lemma_all_tools_distinct()
    ensures
        all_tools().no_duplicates(),
{
    let a = all_tools();
    assert forall|i: int, j: int| 0 <= i < a.len() && 0 <= j < a.len() && i != j implies a[i] != a[j] by {
        catalog::lemma_tool_named(a[i]);
        catalog::lemma_tool_named(a[j]);
    }
}

proof fn lemma_with_tools_fresh(r: Seq<ToolKind>, n: int)
    requires
        r.no_duplicates(),
        0 <= n <= r.len(),
    ensures
        with_tools(Seq::empty(), r.take(n)) == r.take(n),
    decreases n,
{
    if n > 0 {
        lemma_with_tools_fresh(r, n - 1);
        assert(r.take(n).drop_last() =~= r.take(n - 1));
        assert(!r.take(n - 1).contains(r[n - 1]));
        assert(r.take(n - 1).push(r[n - 1]) =~= r.take(n));
    }
}

/// Registration on a fresh registry lists every tool once, in order: all
/// of them, the fingerprint rotation tool exactly when stealth is enabled;
/// no two listed tools share a name.
pub proof fn lemma_fresh_registration(stealth_enabled: bool)
    ensures
        with_tools(Seq::empty(), registration(stealth_enabled)) == registration(stealth_enabled),
        registration(stealth_enabled).contains(ToolKind::StealthRotate) == stealth_enabled,
        registration(stealth_enabled).len() == if stealth_enabled { 27nat } else { 26nat },
        forall|i: int, j: int|
            0 <= i < j < registration(stealth_enabled).len() ==> tool_name(
                #[trigger] registration(stealth_enabled)[i],
            ) != tool_name(#[trigger] registration(stealth_enabled)[j]),
{
    let r = registration(stealth_enabled);
    lemma_all_tools_distinct();
    let a = all_tools();
    if !stealth_enabled {
        assert forall|i: int, j: int| 0 <= i < r.len() && 0 <= j < r.len() && i != j implies r[i] != r[j] by {
            let ii = if i < 15 { i } else { i + 1 };
            let jj = if j < 15 { j } else { j + 1 };
            assert(r[i] == a[ii]);
            assert(r[j] == a[jj]);
        }
        assert forall|i: int| 0 <= i < r.len() implies r[i] != ToolKind::StealthRotate by {
            let ii = if i < 15 { i } else { i + 1 };
            assert(r[i] == a[ii]);
            assert(a[15] == ToolKind::StealthRotate);
        }
    } else {
        assert(r[15] == ToolKind::StealthRotate);
    }
    assert(r.no_duplicates());
    lemma_with_tools_fresh(r, r.len() as int);
    assert(r.take(r.len() as int) =~= r);
    assert forall|i: int, j: int| 0 <= i < j < r.len() implies tool_name(#[trigger] r[i]) != tool_name(
        #[trigger] r[j],
    ) by {
        catalog::lemma_tool_names_distinct(r[i], r[j]);
    }
}

/// Every registered tool can be called: its name dispatches to a handler.
pub proof fn lemma_registered_tools_dispatch(registered: Seq<ToolKind>, k: ToolKind)
    requires
        registered.contains(k),
    ensures
        handler_for(tool_name(k), registered) is Some,
        k != ToolKind::FirecrawlExtract ==> handler_for(tool_name(k), registered) == Some(k),
{
    catalog::lemma_tool_named(k);
}

} // verus!
