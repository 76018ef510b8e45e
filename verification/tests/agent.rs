use nexusmcp::agent::{extract_mode, AgentEnhancer, ExtractMode};

#[test]
fn research_refuses_local_files() {
    let a = AgentEnhancer::new();
    assert!(a.rejects_url("file:///etc/passwd"));
    assert!(!a.rejects_url("https://example.com"));
    assert!(!a.rejects_url("FILE://x"));
}

#[test]
fn research_page_titles_and_extracts() {
    let a = AgentEnhancer::new();
    let html = "<html><head><title>  Hello </title></head><body><a href='/a'>A</a><a>B</a><a href='x\"y'>C</a></body></html>";
    let p = a.research_page("https://u", html, ExtractMode::Links);
    assert_eq!(p.title, "Hello");
    assert_eq!(p.extracted, format!("{:?}", vec!["/a".to_string(), "x\"y".to_string()]));
    let p = a.research_page("https://u", "<p>no title</p>", ExtractMode::Raw);
    assert_eq!(p.title, "Page: https://u");
    assert_eq!(p.extracted, "<p>no title</p>");
    let p = a.research_page("u", "<h1>Title</h1>", ExtractMode::Markdown);
    assert_eq!(p.extracted, html2md::parse_html("<h1>Title</h1>"));
    assert_eq!(extract_mode("markdown"), ExtractMode::Markdown);
    assert_eq!(extract_mode("links"), ExtractMode::Links);
    assert_eq!(extract_mode("json"), ExtractMode::Raw);
}

#[test]
fn deep_research_sources() {
    let a = AgentEnhancer::new();
    let html = "<div class='result__url'> a.com </div><div class='result__url'>  </div><div class='result__url'>b.org</div><div class='result__url'>c.net</div>";
    let r = a.research_sources(Some(html), 2);
    assert_eq!(r.sources, vec!["a.com".to_string(), "b.org".to_string()]);
    assert_eq!(r.pages_visited, 2);
    let r = a.research_sources(None, 5);
    assert_eq!(r.sources, vec!["duckduckgo.com".to_string(), "wikipedia.org".to_string()]);
    assert_eq!(r.pages_visited, 0);
    let r = a.research_sources(Some(html), 0);
    assert_eq!(r.pages_visited, 0);
    assert_eq!(r.sources.len(), 2);
    assert_eq!(a.research_summary("rust"), "Deep research completed for query: rust");
}

#[test]
fn search_url_percent_encodes() {
    let a = AgentEnhancer::new();
    assert_eq!(a.search_url("a b&c"), "https://html.duckduckgo.com/html/?q=a%20b%26c");
    assert_eq!(a.search_url("é~x-_."), "https://html.duckduckgo.com/html/?q=%C3%A9~x-_.");
    assert_eq!(a.search_url(""), "https://html.duckduckgo.com/html/?q=");
}
