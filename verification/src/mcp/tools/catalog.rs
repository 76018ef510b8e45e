//! The tool catalogue: every tool the server offers, with its MCP name, its
//! description and the JSON schema of its arguments.
use vstd::prelude::*;

verus! {

/// The tools of the server.
#[derive(Clone, Copy, PartialEq, Eq, Structural, Debug)]
pub enum ToolKind {
    Navigate,
    Click,
    Evaluate,
    FillForm,
    Back,
    Reload,
    WaitFor,
    TabNew,
    TabSwitch,
    TabClose,
    Markdown,
    Extract,
    Links,
    Pdf,
    Screenshot,
    StealthRotate,
    Research,
    CreateProfile,
    SmartRetry,
    LoadProfile,
    Observe,
    Act,
    FindElement,
    Trafilatura,
    FirecrawlExtract,
    HandleCaptcha,
    HealthCheck,
}

/// The MCP name of a tool.
pub open spec fn tool_name(k: ToolKind) -> Seq<char> {
    match k {
        ToolKind::Navigate => "browser_navigate"@,
        ToolKind::Click => "browser_click"@,
        ToolKind::Evaluate => "browser_evaluate"@,
        ToolKind::FillForm => "browser_fill_form"@,
        ToolKind::Back => "browser_back"@,
        ToolKind::Reload => "browser_reload"@,
        ToolKind::WaitFor => "browser_wait_for"@,
        ToolKind::TabNew => "browser_tab_new"@,
        ToolKind::TabSwitch => "browser_tab_switch"@,
        ToolKind::TabClose => "browser_tab_close"@,
        ToolKind::Markdown => "browser_markdown"@,
        ToolKind::Extract => "browser_extract"@,
        ToolKind::Links => "browser_links"@,
        ToolKind::Pdf => "browser_pdf"@,
        ToolKind::Screenshot => "browser_screenshot"@,
        ToolKind::StealthRotate => "browser_stealth_rotate"@,
        ToolKind::Research => "browser_research"@,
        ToolKind::CreateProfile => "browser_create_profile"@,
        ToolKind::SmartRetry => "browser_smart_retry"@,
        ToolKind::LoadProfile => "browser_load_profile"@,
        ToolKind::Observe => "browser_observe"@,
        ToolKind::Act => "browser_act"@,
        ToolKind::FindElement => "browser_find_element"@,
        ToolKind::Trafilatura => "browser_trafilatura"@,
        ToolKind::FirecrawlExtract => "browser_firecrawl_extract"@,
        ToolKind::HandleCaptcha => "browser_handle_captcha"@,
        ToolKind::HealthCheck => "browser_health_check"@,
    }
}

/// The description of a tool, as the tool list shows it.
pub open spec fn tool_description(k: ToolKind) -> Seq<char> {
    match k {
        ToolKind::Navigate => "Navigate to a URL using the real headless Chromium browser engine."@,
        ToolKind::Click => "Click on an element using a CSS selector."@,
        ToolKind::Evaluate => "Execute JavaScript in the current page via Chrome DevTools Protocol."@,
        ToolKind::FillForm => "Fill multiple form fields. Keys are CSS selectors, values are text to type."@,
        ToolKind::Back => "Navigate back in browser history."@,
        ToolKind::Reload => "Reload the current page."@,
        ToolKind::WaitFor => "Wait for an element, text, or a timeout condition on the live page."@,
        ToolKind::TabNew => "Open a new browser tab, optionally navigating to a URL."@,
        ToolKind::TabSwitch => "Switch to a different tab by its ID."@,
        ToolKind::TabClose => "Close the current browser tab."@,
        ToolKind::Markdown => "Extract clean Markdown from the current live page."@,
        ToolKind::Extract => "Extract structured data from the current page using CSS selectors or a schema."@,
        ToolKind::Links => "Extract all links from the current live page."@,
        ToolKind::Pdf => "Generate a PDF of the current page from the live browser."@,
        ToolKind::Screenshot => "Take a PNG screenshot of the current page from the live browser."@,
        ToolKind::StealthRotate => "Rotate browser fingerprint (user-agent, WebGL, plugins) on the active tab using CDP."@,
        ToolKind::Research => "Fully parallel research with real concurrent execution."@,
        ToolKind::CreateProfile => "Create a persistent browser profile stored in SQLite."@,
        ToolKind::SmartRetry => "Retry a failed navigation with escalating stealth levels (low → medium → high)."@,
        ToolKind::LoadProfile => "Load a persistent browser profile from SQLite by profile ID."@,
        ToolKind::Observe => "Observe the current page: inventory all interactive elements (forms, inputs, buttons, links)."@,
        ToolKind::Act => "Act on the page: find an element matching your goal and click/type on it."@,
        ToolKind::FindElement => "Find elements using natural language. Returns CSS selectors ranked by confidence."@,
        ToolKind::Trafilatura => "Extract article content from the current page, stripping navigation/ads/boilerplate."@,
        ToolKind::FirecrawlExtract => "Extract structured data using a field schema (title, emails, prices, links_count, or CSS selectors)."@,
        ToolKind::HandleCaptcha => "Detect bot protection (Cloudflare, reCAPTCHA, hCaptcha, etc.) on the current page."@,
        ToolKind::HealthCheck => "Check health: active sessions, browser state, registered tools."@,
    }
}

/// The JSON type of a tool argument.
#[derive(Clone, Copy, PartialEq, Eq, Structural, Debug)]
pub enum ValueType {
    String,
    Integer,
    Boolean,
    Object,
    StringList,
}

/// The default value of a tool argument.
#[derive(Clone, Copy, Debug)]
pub enum DefaultValue {
    Text(&'static str),
    Integer(u64),
    Boolean(bool),
}

/// One argument in a tool's schema: its name, type, description, default
/// and, for an enumerated string, the allowed values.
#[derive(Debug)]
pub struct SchemaProperty {
    pub name: &'static str,
    pub value_type: ValueType,
    pub description: Option<&'static str>,
    pub default_value: Option<DefaultValue>,
    pub choices: Vec<&'static str>,
}

/// The view of a `SchemaProperty`.
#[verifier::ext_equal]
pub struct PropertyView {
    pub name: &'static str,
    pub value_type: ValueType,
    pub description: Option<&'static str>,
    pub default_value: Option<DefaultValue>,
    pub choices: Seq<&'static str>,
}

impl View for SchemaProperty {
    type V = PropertyView;

    open spec fn view(&self) -> PropertyView {
        PropertyView {
            name: self.name,
            value_type: self.value_type,
            description: self.description,
            default_value: self.default_value,
            choices: self.choices@,
        }
    }
}

/// The schema of a tool's arguments: its properties, in order, and the
/// names of the required ones.
#[derive(Debug)]
pub struct ToolSchema {
    pub properties: Vec<SchemaProperty>,
    pub required: Vec<&'static str>,
}

/// The view of a `ToolSchema`.
#[verifier::ext_equal]
pub struct ToolSchemaView {
    pub properties: Seq<PropertyView>,
    pub required: Seq<&'static str>,
}

impl View for ToolSchema {
    type V = ToolSchemaView;

    open spec fn view(&self) -> ToolSchemaView {
        ToolSchemaView {
            properties: self.properties@.map_values(|p: SchemaProperty| p@),
            required: self.required@,
        }
    }
}

/// A plain argument.
pub open spec fn field(
    name: &'static str,
    value_type: ValueType,
    description: Option<&'static str>,
    default_value: Option<DefaultValue>,
) -> PropertyView {
    PropertyView { name, value_type, description, default_value, choices: Seq::empty() }
}

/// A string argument restricted to `choices`.
pub open spec fn choice_field(
    name: &'static str,
    description: Option<&'static str>,
    default_value: Option<DefaultValue>,
    choices: Seq<&'static str>,
) -> PropertyView {
    PropertyView { name, value_type: ValueType::String, description, default_value, choices }
}

fn property(
    name: &'static str,
    value_type: ValueType,
    description: Option<&'static str>,
    default_value: Option<DefaultValue>,
) -> (p: SchemaProperty)
    ensures
        p@ == field(name, value_type, description, default_value),
{
    SchemaProperty { name, value_type, description, default_value, choices: Vec::new() }
}

fn choice_property(
    name: &'static str,
    description: Option<&'static str>,
    default_value: Option<DefaultValue>,
    choices: Vec<&'static str>,
) -> (p: SchemaProperty)
    ensures
        p@ == choice_field(name, description, default_value, choices@),
{
    SchemaProperty { name, value_type: ValueType::String, description, default_value, choices }
}

/// The argument schema of a tool.
pub open spec fn tool_schema(k: ToolKind) -> ToolSchemaView {
    match k {
        ToolKind::Navigate => ToolSchemaView {
            properties: seq![
                field("url", ValueType::String, Some("The URL to navigate to"), None),
                choice_field("wait_until", None, Some(DefaultValue::Text("load")), seq!["load", "domcontentloaded", "networkidle0"]),
                field("timeout", ValueType::Integer, Some("Navigation timeout in ms"), Some(DefaultValue::Integer(30000))),
                field("profile_id", ValueType::String, Some("Optional profile ID to use for this session"), None),
            ],
            required: seq!["url"],
        },
        ToolKind::Click => ToolSchemaView {
            properties: seq![
                field("selector", ValueType::String, Some("CSS selector of the element to click"), None),
            ],
            required: seq!["selector"],
        },
        ToolKind::Evaluate => ToolSchemaView {
            properties: seq![
                field("script", ValueType::String, Some("JavaScript code to execute"), None),
            ],
            required: seq!["script"],
        },
        ToolKind::FillForm => ToolSchemaView {
            properties: seq![
                field("form_data", ValueType::Object, Some("Map of CSS selector -> value to type"), None),
            ],
            required: seq!["form_data"],
        },
        ToolKind::Back => ToolSchemaView {
            properties: seq![
            ],
            required: seq![],
        },
        ToolKind::Reload => ToolSchemaView {
            properties: seq![
            ],
            required: seq![],
        },
        ToolKind::WaitFor => ToolSchemaView {
            properties: seq![
                field("selector", ValueType::String, Some("CSS selector to wait for"), None),
                field("text", ValueType::String, Some("Text to wait for in the page body"), None),
                field("timeout", ValueType::Integer, Some("Max wait time in ms"), Some(DefaultValue::Integer(30000))),
            ],
            required: seq![],
        },
        ToolKind::TabNew => ToolSchemaView {
            properties: seq![
                field("url", ValueType::String, Some("Optional URL to open in new tab"), None),
            ],
            required: seq![],
        },
        ToolKind::TabSwitch => ToolSchemaView {
            properties: seq![
                field("tab_id", ValueType::String, Some("Tab ID to switch to"), None),
            ],
            required: seq!["tab_id"],
        },
        ToolKind::TabClose => ToolSchemaView {
            properties: seq![
            ],
            required: seq![],
        },
        ToolKind::Markdown => ToolSchemaView {
            properties: seq![
                field("include_images", ValueType::Boolean, None, Some(DefaultValue::Boolean(false))),
                field("max_length", ValueType::Integer, None, Some(DefaultValue::Integer(8000))),
            ],
            required: seq![],
        },
        ToolKind::Extract => ToolSchemaView {
            properties: seq![
                field("schema", ValueType::Object, Some("Schema defining what fields to extract (e.g. title, emails, prices)"), None),
                field("prompt", ValueType::String, None, None),
            ],
            required: seq![],
        },
        ToolKind::Links => ToolSchemaView {
            properties: seq![
                field("filter", ValueType::String, Some("Optional filter for link URLs or text"), None),
            ],
            required: seq![],
        },
        ToolKind::Pdf => ToolSchemaView {
            properties: seq![
                field("format", ValueType::String, None, Some(DefaultValue::Text("A4"))),
                field("margin", ValueType::Integer, None, Some(DefaultValue::Integer(20))),
            ],
            required: seq![],
        },
        ToolKind::Screenshot => ToolSchemaView {
            properties: seq![
                field("selector", ValueType::String, Some("Optional CSS selector to screenshot a specific element"), None),
                field("full_page", ValueType::Boolean, None, Some(DefaultValue::Boolean(true))),
            ],
            required: seq![],
        },
        ToolKind::StealthRotate => ToolSchemaView {
            properties: seq![
                choice_field("level", Some("Stealth level: low=webdriver only, medium=UA+languages, high=full fingerprint"), Some(DefaultValue::Text("high")), seq!["low", "medium", "high"]),
            ],
            required: seq![],
        },
        ToolKind::Research => ToolSchemaView {
            properties: seq![
                field("urls", ValueType::StringList, None, None),
                choice_field("extract_mode", None, Some(DefaultValue::Text("markdown")), seq!["markdown", "json", "links"]),
                field("concurrency", ValueType::Integer, None, Some(DefaultValue::Integer(8))),
            ],
            required: seq!["urls"],
        },
        ToolKind::CreateProfile => ToolSchemaView {
            properties: seq![
                field("name", ValueType::String, Some("Profile name"), None),
                field("proxy", ValueType::String, Some("Optional proxy URL"), None),
                choice_field("stealth_level", None, Some(DefaultValue::Text("high")), seq!["low", "medium", "high"]),
            ],
            required: seq!["name"],
        },
        ToolKind::SmartRetry => ToolSchemaView {
            properties: seq![
                field("url", ValueType::String, Some("URL to retry navigating to"), None),
                field("max_retries", ValueType::Integer, Some("Maximum retry attempts"), Some(DefaultValue::Integer(3))),
            ],
            required: seq!["url"],
        },
        ToolKind::LoadProfile => ToolSchemaView {
            properties: seq![
                field("profile_id", ValueType::String, Some("The profile ID to load"), None),
            ],
            required: seq!["profile_id"],
        },
        ToolKind::Observe => ToolSchemaView {
            properties: seq![
                field("instruction", ValueType::String, Some("What to look for (e.g. 'find login form'). Defaults to full page analysis."), None),
            ],
            required: seq![],
        },
        ToolKind::Act => ToolSchemaView {
            properties: seq![
                field("goal", ValueType::String, Some("What to do (e.g. 'click the submit button', 'fill the email field')"), None),
                field("value", ValueType::String, Some("Value to type if the target is an input field"), None),
            ],
            required: seq!["goal"],
        },
        ToolKind::FindElement => ToolSchemaView {
            properties: seq![
                field("instruction", ValueType::String, Some("Natural language description of the element (e.g. 'the search input')"), None),
            ],
            required: seq!["instruction"],
        },
        ToolKind::Trafilatura => ToolSchemaView {
            properties: seq![
            ],
            required: seq![],
        },
        ToolKind::FirecrawlExtract => ToolSchemaView {
            properties: seq![
                field("schema", ValueType::Object, Some("Schema defining fields to extract"), None),
            ],
            required: seq![],
        },
        ToolKind::HandleCaptcha => ToolSchemaView {
            properties: seq![
                choice_field("action", Some("detect=check for protection, bypass=inject high stealth"), Some(DefaultValue::Text("detect")), seq!["detect", "bypass"]),
            ],
            required: seq![],
        },
        ToolKind::HealthCheck => ToolSchemaView {
            properties: seq![
            ],
            required: seq![],
        },
    }
}

impl ToolKind {
    /// The MCP name of the tool.
    pub fn name(self) -> (r: &'static str)
        ensures
            r@ == tool_name(self),
    {
        match self {
            ToolKind::Navigate => "browser_navigate",
            ToolKind::Click => "browser_click",
            ToolKind::Evaluate => "browser_evaluate",
            ToolKind::FillForm => "browser_fill_form",
            ToolKind::Back => "browser_back",
            ToolKind::Reload => "browser_reload",
            ToolKind::WaitFor => "browser_wait_for",
            ToolKind::TabNew => "browser_tab_new",
            ToolKind::TabSwitch => "browser_tab_switch",
            ToolKind::TabClose => "browser_tab_close",
            ToolKind::Markdown => "browser_markdown",
            ToolKind::Extract => "browser_extract",
            ToolKind::Links => "browser_links",
            ToolKind::Pdf => "browser_pdf",
            ToolKind::Screenshot => "browser_screenshot",
            ToolKind::StealthRotate => "browser_stealth_rotate",
            ToolKind::Research => "browser_research",
            ToolKind::CreateProfile => "browser_create_profile",
            ToolKind::SmartRetry => "browser_smart_retry",
            ToolKind::LoadProfile => "browser_load_profile",
            ToolKind::Observe => "browser_observe",
            ToolKind::Act => "browser_act",
            ToolKind::FindElement => "browser_find_element",
            ToolKind::Trafilatura => "browser_trafilatura",
            ToolKind::FirecrawlExtract => "browser_firecrawl_extract",
            ToolKind::HandleCaptcha => "browser_handle_captcha",
            ToolKind::HealthCheck => "browser_health_check",
        }
    }

    /// The description of the tool.
    pub fn description(self) -> (r: &'static str)
        ensures
            r@ == tool_description(self),
    {
        match self {
            ToolKind::Navigate => "Navigate to a URL using the real headless Chromium browser engine.",
            ToolKind::Click => "Click on an element using a CSS selector.",
            ToolKind::Evaluate => "Execute JavaScript in the current page via Chrome DevTools Protocol.",
            ToolKind::FillForm => "Fill multiple form fields. Keys are CSS selectors, values are text to type.",
            ToolKind::Back => "Navigate back in browser history.",
            ToolKind::Reload => "Reload the current page.",
            ToolKind::WaitFor => "Wait for an element, text, or a timeout condition on the live page.",
            ToolKind::TabNew => "Open a new browser tab, optionally navigating to a URL.",
            ToolKind::TabSwitch => "Switch to a different tab by its ID.",
            ToolKind::TabClose => "Close the current browser tab.",
            ToolKind::Markdown => "Extract clean Markdown from the current live page.",
            ToolKind::Extract => "Extract structured data from the current page using CSS selectors or a schema.",
            ToolKind::Links => "Extract all links from the current live page.",
            ToolKind::Pdf => "Generate a PDF of the current page from the live browser.",
            ToolKind::Screenshot => "Take a PNG screenshot of the current page from the live browser.",
            ToolKind::StealthRotate => "Rotate browser fingerprint (user-agent, WebGL, plugins) on the active tab using CDP.",
            ToolKind::Research => "Fully parallel research with real concurrent execution.",
            ToolKind::CreateProfile => "Create a persistent browser profile stored in SQLite.",
            ToolKind::SmartRetry => "Retry a failed navigation with escalating stealth levels (low → medium → high).",
            ToolKind::LoadProfile => "Load a persistent browser profile from SQLite by profile ID.",
            ToolKind::Observe => "Observe the current page: inventory all interactive elements (forms, inputs, buttons, links).",
            ToolKind::Act => "Act on the page: find an element matching your goal and click/type on it.",
            ToolKind::FindElement => "Find elements using natural language. Returns CSS selectors ranked by confidence.",
            ToolKind::Trafilatura => "Extract article content from the current page, stripping navigation/ads/boilerplate.",
            ToolKind::FirecrawlExtract => "Extract structured data using a field schema (title, emails, prices, links_count, or CSS selectors).",
            ToolKind::HandleCaptcha => "Detect bot protection (Cloudflare, reCAPTCHA, hCaptcha, etc.) on the current page.",
            ToolKind::HealthCheck => "Check health: active sessions, browser state, registered tools.",
        }
    }

    /// The argument schema of the tool.
    pub fn input_schema(self) -> (r: ToolSchema)
        ensures
            r@ == tool_schema(self),
    {
        match self {
            ToolKind::Navigate => {
                let properties: Vec<SchemaProperty> = vec![
                    property("url", ValueType::String, Some("The URL to navigate to"), None),
                    choice_property("wait_until", None, Some(DefaultValue::Text("load")), vec!["load", "domcontentloaded", "networkidle0"]),
                    property("timeout", ValueType::Integer, Some("Navigation timeout in ms"), Some(DefaultValue::Integer(30000))),
                    property("profile_id", ValueType::String, Some("Optional profile ID to use for this session"), None),
                ];
                let required: Vec<&'static str> = vec!["url"];
                let r = ToolSchema { properties, required };
                assert(r@.properties =~= tool_schema(self).properties);
                r
            },
            ToolKind::Click => {
                let properties: Vec<SchemaProperty> = vec![
                    property("selector", ValueType::String, Some("CSS selector of the element to click"), None),
                ];
                let required: Vec<&'static str> = vec!["selector"];
                let r = ToolSchema { properties, required };
                assert(r@.properties =~= tool_schema(self).properties);
                r
            },
            ToolKind::Evaluate => {
                let properties: Vec<SchemaProperty> = vec![
                    property("script", ValueType::String, Some("JavaScript code to execute"), None),
                ];
                let required: Vec<&'static str> = vec!["script"];
                let r = ToolSchema { properties, required };
                assert(r@.properties =~= tool_schema(self).properties);
                r
            },
            ToolKind::FillForm => {
                let properties: Vec<SchemaProperty> = vec![
                    property("form_data", ValueType::Object, Some("Map of CSS selector -> value to type"), None),
                ];
                let required: Vec<&'static str> = vec!["form_data"];
                let r = ToolSchema { properties, required };
                assert(r@.properties =~= tool_schema(self).properties);
                r
            },
            ToolKind::Back => {
                let properties: Vec<SchemaProperty> = vec![
                ];
                let required: Vec<&'static str> = vec![];
                let r = ToolSchema { properties, required };
                assert(r@.properties =~= tool_schema(self).properties);
                r
            },
            ToolKind::Reload => {
                let properties: Vec<SchemaProperty> = vec![
                ];
                let required: Vec<&'static str> = vec![];
                let r = ToolSchema { properties, required };
                assert(r@.properties =~= tool_schema(self).properties);
                r
            },
            ToolKind::WaitFor => {
                let properties: Vec<SchemaProperty> = vec![
                    property("selector", ValueType::String, Some("CSS selector to wait for"), None),
                    property("text", ValueType::String, Some("Text to wait for in the page body"), None),
                    property("timeout", ValueType::Integer, Some("Max wait time in ms"), Some(DefaultValue::Integer(30000))),
                ];
                let required: Vec<&'static str> = vec![];
                let r = ToolSchema { properties, required };
                assert(r@.properties =~= tool_schema(self).properties);
                r
            },
            ToolKind::TabNew => {
                let properties: Vec<SchemaProperty> = vec![
                    property("url", ValueType::String, Some("Optional URL to open in new tab"), None),
                ];
                let required: Vec<&'static str> = vec![];
                let r = ToolSchema { properties, required };
                assert(r@.properties =~= tool_schema(self).properties);
                r
            },
            ToolKind::TabSwitch => {
                let properties: Vec<SchemaProperty> = vec![
                    property("tab_id", ValueType::String, Some("Tab ID to switch to"), None),
                ];
                let required: Vec<&'static str> = vec!["tab_id"];
                let r = ToolSchema { properties, required };
                assert(r@.properties =~= tool_schema(self).properties);
                r
            },
            ToolKind::TabClose => {
                let properties: Vec<SchemaProperty> = vec![
                ];
                let required: Vec<&'static str> = vec![];
                let r = ToolSchema { properties, required };
                assert(r@.properties =~= tool_schema(self).properties);
                r
            },
            ToolKind::Markdown => {
                let properties: Vec<SchemaProperty> = vec![
                    property("include_images", ValueType::Boolean, None, Some(DefaultValue::Boolean(false))),
                    property("max_length", ValueType::Integer, None, Some(DefaultValue::Integer(8000))),
                ];
                let required: Vec<&'static str> = vec![];
                let r = ToolSchema { properties, required };
                assert(r@.properties =~= tool_schema(self).properties);
                r
            },
            ToolKind::Extract => {
                let properties: Vec<SchemaProperty> = vec![
                    property("schema", ValueType::Object, Some("Schema defining what fields to extract (e.g. title, emails, prices)"), None),
                    property("prompt", ValueType::String, None, None),
                ];
                let required: Vec<&'static str> = vec![];
                let r = ToolSchema { properties, required };
                assert(r@.properties =~= tool_schema(self).properties);
                r
            },
            ToolKind::Links => {
                let properties: Vec<SchemaProperty> = vec![
                    property("filter", ValueType::String, Some("Optional filter for link URLs or text"), None),
                ];
                let required: Vec<&'static str> = vec![];
                let r = ToolSchema { properties, required };
                assert(r@.properties =~= tool_schema(self).properties);
                r
            },
            ToolKind::Pdf => {
                let properties: Vec<SchemaProperty> = vec![
                    property("format", ValueType::String, None, Some(DefaultValue::Text("A4"))),
                    property("margin", ValueType::Integer, None, Some(DefaultValue::Integer(20))),
                ];
                let required: Vec<&'static str> = vec![];
                let r = ToolSchema { properties, required };
                assert(r@.properties =~= tool_schema(self).properties);
                r
            },
            ToolKind::Screenshot => {
                let properties: Vec<SchemaProperty> = vec![
                    property("selector", ValueType::String, Some("Optional CSS selector to screenshot a specific element"), None),
                    property("full_page", ValueType::Boolean, None, Some(DefaultValue::Boolean(true))),
                ];
                let required: Vec<&'static str> = vec![];
                let r = ToolSchema { properties, required };
                assert(r@.properties =~= tool_schema(self).properties);
                r
            },
            ToolKind::StealthRotate => {
                let properties: Vec<SchemaProperty> = vec![
                    choice_property("level", Some("Stealth level: low=webdriver only, medium=UA+languages, high=full fingerprint"), Some(DefaultValue::Text("high")), vec!["low", "medium", "high"]),
                ];
                let required: Vec<&'static str> = vec![];
                let r = ToolSchema { properties, required };
                assert(r@.properties =~= tool_schema(self).properties);
                r
            },
            ToolKind::Research => {
                let properties: Vec<SchemaProperty> = vec![
                    property("urls", ValueType::StringList, None, None),
                    choice_property("extract_mode", None, Some(DefaultValue::Text("markdown")), vec!["markdown", "json", "links"]),
                    property("concurrency", ValueType::Integer, None, Some(DefaultValue::Integer(8))),
                ];
                let required: Vec<&'static str> = vec!["urls"];
                let r = ToolSchema { properties, required };
                assert(r@.properties =~= tool_schema(self).properties);
                r
            },
            ToolKind::CreateProfile => {
                let properties: Vec<SchemaProperty> = vec![
                    property("name", ValueType::String, Some("Profile name"), None),
                    property("proxy", ValueType::String, Some("Optional proxy URL"), None),
                    choice_property("stealth_level", None, Some(DefaultValue::Text("high")), vec!["low", "medium", "high"]),
                ];
                let required: Vec<&'static str> = vec!["name"];
                let r = ToolSchema { properties, required };
                assert(r@.properties =~= tool_schema(self).properties);
                r
            },
            ToolKind::SmartRetry => {
                let properties: Vec<SchemaProperty> = vec![
                    property("url", ValueType::String, Some("URL to retry navigating to"), None),
                    property("max_retries", ValueType::Integer, Some("Maximum retry attempts"), Some(DefaultValue::Integer(3))),
                ];
                let required: Vec<&'static str> = vec!["url"];
                let r = ToolSchema { properties, required };
                assert(r@.properties =~= tool_schema(self).properties);
                r
            },
            ToolKind::LoadProfile => {
                let properties: Vec<SchemaProperty> = vec![
                    property("profile_id", ValueType::String, Some("The profile ID to load"), None),
                ];
                let required: Vec<&'static str> = vec!["profile_id"];
                let r = ToolSchema { properties, required };
                assert(r@.properties =~= tool_schema(self).properties);
                r
            },
            ToolKind::Observe => {
                let properties: Vec<SchemaProperty> = vec![
                    property("instruction", ValueType::String, Some("What to look for (e.g. 'find login form'). Defaults to full page analysis."), None),
                ];
                let required: Vec<&'static str> = vec![];
                let r = ToolSchema { properties, required };
                assert(r@.properties =~= tool_schema(self).properties);
                r
            },
            ToolKind::Act => {
                let properties: Vec<SchemaProperty> = vec![
                    property("goal", ValueType::String, Some("What to do (e.g. 'click the submit button', 'fill the email field')"), None),
                    property("value", ValueType::String, Some("Value to type if the target is an input field"), None),
                ];
                let required: Vec<&'static str> = vec!["goal"];
                let r = ToolSchema { properties, required };
                assert(r@.properties =~= tool_schema(self).properties);
                r
            },
            ToolKind::FindElement => {
                let properties: Vec<SchemaProperty> = vec![
                    property("instruction", ValueType::String, Some("Natural language description of the element (e.g. 'the search input')"), None),
                ];
                let required: Vec<&'static str> = vec!["instruction"];
                let r = ToolSchema { properties, required };
                assert(r@.properties =~= tool_schema(self).properties);
                r
            },
            ToolKind::Trafilatura => {
                let properties: Vec<SchemaProperty> = vec![
                ];
                let required: Vec<&'static str> = vec![];
                let r = ToolSchema { properties, required };
                assert(r@.properties =~= tool_schema(self).properties);
                r
            },
            ToolKind::FirecrawlExtract => {
                let properties: Vec<SchemaProperty> = vec![
                    property("schema", ValueType::Object, Some("Schema defining fields to extract"), None),
                ];
                let required: Vec<&'static str> = vec![];
                let r = ToolSchema { properties, required };
                assert(r@.properties =~= tool_schema(self).properties);
                r
            },
            ToolKind::HandleCaptcha => {
                let properties: Vec<SchemaProperty> = vec![
                    choice_property("action", Some("detect=check for protection, bypass=inject high stealth"), Some(DefaultValue::Text("detect")), vec!["detect", "bypass"]),
                ];
                let required: Vec<&'static str> = vec![];
                let r = ToolSchema { properties, required };
                assert(r@.properties =~= tool_schema(self).properties);
                r
            },
            ToolKind::HealthCheck => {
                let properties: Vec<SchemaProperty> = vec![
                ];
                let required: Vec<&'static str> = vec![];
                let r = ToolSchema { properties, required };
                assert(r@.properties =~= tool_schema(self).properties);
                r
            },
        }
    }
}

/// Every tool, in the order the server registers them.
pub open spec fn all_tools() -> Seq<ToolKind> {
    seq![
        ToolKind::Navigate, ToolKind::Click, ToolKind::Evaluate, ToolKind::FillForm,
        ToolKind::Back, ToolKind::Reload, ToolKind::WaitFor, ToolKind::TabNew,
        ToolKind::TabSwitch, ToolKind::TabClose, ToolKind::Markdown, ToolKind::Extract,
        ToolKind::Links, ToolKind::Pdf, ToolKind::Screenshot, ToolKind::StealthRotate,
        ToolKind::Research, ToolKind::CreateProfile, ToolKind::SmartRetry, ToolKind::LoadProfile,
        ToolKind::Observe, ToolKind::Act, ToolKind::FindElement, ToolKind::Trafilatura,
        ToolKind::FirecrawlExtract, ToolKind::HandleCaptcha, ToolKind::HealthCheck,
    ]
}

/// The tool a name belongs to, if any.
pub open spec fn tool_named(s: Seq<char>) -> Option<ToolKind> {
    if s == "browser_navigate"@ {
        Some(ToolKind::Navigate)
    } else if s == "browser_click"@ {
        Some(ToolKind::Click)
    } else if s == "browser_evaluate"@ {
        Some(ToolKind::Evaluate)
    } else if s == "browser_fill_form"@ {
        Some(ToolKind::FillForm)
    } else if s == "browser_back"@ {
        Some(ToolKind::Back)
    } else if s == "browser_reload"@ {
        Some(ToolKind::Reload)
    } else if s == "browser_wait_for"@ {
        Some(ToolKind::WaitFor)
    } else if s == "browser_tab_new"@ {
        Some(ToolKind::TabNew)
    } else if s == "browser_tab_switch"@ {
        Some(ToolKind::TabSwitch)
    } else if s == "browser_tab_close"@ {
        Some(ToolKind::TabClose)
    } else if s == "browser_markdown"@ {
        Some(ToolKind::Markdown)
    } else if s == "browser_extract"@ {
        Some(ToolKind::Extract)
    } else if s == "browser_links"@ {
        Some(ToolKind::Links)
    } else if s == "browser_pdf"@ {
        Some(ToolKind::Pdf)
    } else if s == "browser_screenshot"@ {
        Some(ToolKind::Screenshot)
    } else if s == "browser_stealth_rotate"@ {
        Some(ToolKind::StealthRotate)
    } else if s == "browser_research"@ {
        Some(ToolKind::Research)
    } else if s == "browser_create_profile"@ {
        Some(ToolKind::CreateProfile)
    } else if s == "browser_smart_retry"@ {
        Some(ToolKind::SmartRetry)
    } else if s == "browser_load_profile"@ {
        Some(ToolKind::LoadProfile)
    } else if s == "browser_observe"@ {
        Some(ToolKind::Observe)
    } else if s == "browser_act"@ {
        Some(ToolKind::Act)
    } else if s == "browser_find_element"@ {
        Some(ToolKind::FindElement)
    } else if s == "browser_trafilatura"@ {
        Some(ToolKind::Trafilatura)
    } else if s == "browser_firecrawl_extract"@ {
        Some(ToolKind::FirecrawlExtract)
    } else if s == "browser_handle_captcha"@ {
        Some(ToolKind::HandleCaptcha)
    } else if s == "browser_health_check"@ {
        Some(ToolKind::HealthCheck)
    } else {
        None
    }
}

/// Each tool's name leads back to the tool.
#[verifier::rlimit(60)]
pub proof fn lemma_tool_named(k: ToolKind)
    ensures
        tool_named(tool_name(k)) == Some(k),
{
    reveal_strlit("browser_navigate");
    reveal_strlit("browser_click");
    reveal_strlit("browser_evaluate");
    reveal_strlit("browser_fill_form");
    reveal_strlit("browser_back");
    reveal_strlit("browser_reload");
    reveal_strlit("browser_wait_for");
    reveal_strlit("browser_tab_new");
    reveal_strlit("browser_tab_switch");
    reveal_strlit("browser_tab_close");
    reveal_strlit("browser_markdown");
    reveal_strlit("browser_extract");
    reveal_strlit("browser_links");
    reveal_strlit("browser_pdf");
    reveal_strlit("browser_screenshot");
    reveal_strlit("browser_stealth_rotate");
    reveal_strlit("browser_research");
    reveal_strlit("browser_create_profile");
    reveal_strlit("browser_smart_retry");
    reveal_strlit("browser_load_profile");
    reveal_strlit("browser_observe");
    reveal_strlit("browser_act");
    reveal_strlit("browser_find_element");
    reveal_strlit("browser_trafilatura");
    reveal_strlit("browser_firecrawl_extract");
    reveal_strlit("browser_handle_captcha");
    reveal_strlit("browser_health_check");
    assert("browser_navigate"@.len() == 16);
    assert("browser_click"@.len() == 13);
    assert("browser_evaluate"@.len() == 16);
    assert("browser_fill_form"@.len() == 17);
    assert("browser_back"@.len() == 12);
    assert("browser_reload"@.len() == 14);
    assert("browser_wait_for"@.len() == 16);
    assert("browser_tab_new"@.len() == 15);
    assert("browser_tab_switch"@.len() == 18);
    assert("browser_tab_close"@.len() == 17);
    assert("browser_markdown"@.len() == 16);
    assert("browser_extract"@.len() == 15);
    assert("browser_links"@.len() == 13);
    assert("browser_pdf"@.len() == 11);
    assert("browser_screenshot"@.len() == 18);
    assert("browser_stealth_rotate"@.len() == 22);
    assert("browser_research"@.len() == 16);
    assert("browser_create_profile"@.len() == 22);
    assert("browser_smart_retry"@.len() == 19);
    assert("browser_load_profile"@.len() == 20);
    assert("browser_observe"@.len() == 15);
    assert("browser_act"@.len() == 11);
    assert("browser_find_element"@.len() == 20);
    assert("browser_trafilatura"@.len() == 19);
    assert("browser_firecrawl_extract"@.len() == 25);
    assert("browser_handle_captcha"@.len() == 22);
    assert("browser_health_check"@.len() == 20);
    assert("browser_navigate"@[8] == 'n');
    assert("browser_evaluate"@[8] == 'e');
    assert("browser_wait_for"@[8] == 'w');
    assert("browser_markdown"@[8] == 'm');
    assert("browser_research"@[8] == 'r');
    assert("browser_click"@[8] == 'c');
    assert("browser_links"@[8] == 'l');
    assert("browser_fill_form"@[8] == 'f');
    assert("browser_tab_close"@[8] == 't');
    assert("browser_tab_new"@[8] == 't');
    assert("browser_extract"@[8] == 'e');
    assert("browser_observe"@[8] == 'o');
    assert("browser_tab_switch"@[8] == 't');
    assert("browser_screenshot"@[8] == 's');
    assert("browser_pdf"@[8] == 'p');
    assert("browser_act"@[8] == 'a');
    assert("browser_stealth_rotate"@[8] == 's');
    assert("browser_create_profile"@[8] == 'c');
    assert("browser_handle_captcha"@[8] == 'h');
    assert("browser_smart_retry"@[8] == 's');
    assert("browser_trafilatura"@[8] == 't');
    assert("browser_load_profile"@[8] == 'l');
    assert("browser_find_element"@[8] == 'f');
    assert("browser_health_check"@[8] == 'h');
    match k {
        ToolKind::Navigate => {},
        ToolKind::Click => {},
        ToolKind::Evaluate => {},
        ToolKind::FillForm => {},
        ToolKind::Back => {},
        ToolKind::Reload => {},
        ToolKind::WaitFor => {},
        ToolKind::TabNew => {},
        ToolKind::TabSwitch => {},
        ToolKind::TabClose => {},
        ToolKind::Markdown => {},
        ToolKind::Extract => {},
        ToolKind::Links => {},
        ToolKind::Pdf => {},
        ToolKind::Screenshot => {},
        ToolKind::StealthRotate => {},
        ToolKind::Research => {},
        ToolKind::CreateProfile => {},
        ToolKind::SmartRetry => {},
        ToolKind::LoadProfile => {},
        ToolKind::Observe => {},
        ToolKind::Act => {},
        ToolKind::FindElement => {},
        ToolKind::Trafilatura => {},
        ToolKind::FirecrawlExtract => {},
        ToolKind::HandleCaptcha => {},
        ToolKind::HealthCheck => {},
    }
}

/// Distinct tools have distinct names.
pub proof fn lemma_tool_names_distinct(a: ToolKind, b: ToolKind)
    ensures
        tool_name(a) == tool_name(b) ==> a == b,
{
    lemma_tool_named(a);
    lemma_tool_named(b);
}

/// Whether a schema declares a property named `name`.
pub open spec fn declares(s: ToolSchemaView, name: &'static str) -> bool {
    exists|j: int| 0 <= j < s.properties.len() && #[trigger] s.properties[j].name == name
}

/// Every argument a tool requires is one of the properties its schema
/// declares.
pub proof fn lemma_required_declared(k: ToolKind)
    ensures
        forall|i: int|
            0 <= i < tool_schema(k).required.len() ==> declares(
                tool_schema(k),
                #[trigger] tool_schema(k).required[i],
            ),
{
    let s = tool_schema(k);
    assert forall|i: int| 0 <= i < s.required.len() implies declares(s, #[trigger] s.required[i]) by {
        assert(s.properties[0].name == s.required[i]);
    }
}

/// Every tool is in the catalogue.
pub proof fn lemma_all_tools_complete(k: ToolKind)
    ensures
        all_tools().contains(k),
{
    let all = all_tools();
    match k {
        ToolKind::Navigate => assert(all[0] == k),
        ToolKind::Click => assert(all[1] == k),
        ToolKind::Evaluate => assert(all[2] == k),
        ToolKind::FillForm => assert(all[3] == k),
        ToolKind::Back => assert(all[4] == k),
        ToolKind::Reload => assert(all[5] == k),
        ToolKind::WaitFor => assert(all[6] == k),
        ToolKind::TabNew => assert(all[7] == k),
        ToolKind::TabSwitch => assert(all[8] == k),
        ToolKind::TabClose => assert(all[9] == k),
        ToolKind::Markdown => assert(all[10] == k),
        ToolKind::Extract => assert(all[11] == k),
        ToolKind::Links => assert(all[12] == k),
        ToolKind::Pdf => assert(all[13] == k),
        ToolKind::Screenshot => assert(all[14] == k),
        ToolKind::StealthRotate => assert(all[15] == k),
        ToolKind::Research => assert(all[16] == k),
        ToolKind::CreateProfile => assert(all[17] == k),
        ToolKind::SmartRetry => assert(all[18] == k),
        ToolKind::LoadProfile => assert(all[19] == k),
        ToolKind::Observe => assert(all[20] == k),
        ToolKind::Act => assert(all[21] == k),
        ToolKind::FindElement => assert(all[22] == k),
        ToolKind::Trafilatura => assert(all[23] == k),
        ToolKind::FirecrawlExtract => assert(all[24] == k),
        ToolKind::HandleCaptcha => assert(all[25] == k),
        ToolKind::HealthCheck => assert(all[26] == k),
    }
}


/// Every tool, in the order the server registers them.
pub fn all_tool_kinds() -> (r: Vec<ToolKind>)
    ensures
        r@ == all_tools(),
{
    let r = vec![
        ToolKind::Navigate, ToolKind::Click, ToolKind::Evaluate, ToolKind::FillForm,
        ToolKind::Back, ToolKind::Reload, ToolKind::WaitFor, ToolKind::TabNew,
        ToolKind::TabSwitch, ToolKind::TabClose, ToolKind::Markdown, ToolKind::Extract,
        ToolKind::Links, ToolKind::Pdf, ToolKind::Screenshot, ToolKind::StealthRotate,
        ToolKind::Research, ToolKind::CreateProfile, ToolKind::SmartRetry, ToolKind::LoadProfile,
        ToolKind::Observe, ToolKind::Act, ToolKind::FindElement, ToolKind::Trafilatura,
        ToolKind::FirecrawlExtract, ToolKind::HandleCaptcha, ToolKind::HealthCheck,
    ];
    assert(r@ =~= all_tools());
    r
}

/// A name that belongs to a tool is that tool's name.
pub proof fn lemma_tool_named_inverse(s: Seq<char>)
    ensures
        tool_named(s) matches Some(k) ==> tool_name(k) == s,
{
}

} // verus!
