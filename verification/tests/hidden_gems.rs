use nexusmcp::hidden_gems::crawl4ai::{Crawl4AIDetector, ProtectionKind, ProtectionLevel, Severity};
use nexusmcp::hidden_gems::firecrawl_extraction::{FieldValue, FirecrawlExtractor};
use nexusmcp::hidden_gems::stagehand::StagehandEngine;
use nexusmcp::hidden_gems::stealth::PlaywrightStealth;
use nexusmcp::hidden_gems::trafilatura::{ContentQuality, TrafilaturaExtractor};
use nexusmcp::hidden_gems::vector_memory::PersistentVectorMemory;

#[test]
fn test_trafilatura_extraction() {
    let trafilatura = TrafilaturaExtractor::new();
    let html = r#"<!DOCTYPE html>
    <html>
    <head>
        <title>Breaking News Article</title>
        <meta name="description" content="A major event happened">
        <meta name="author" content="John Doe">
    </head>
    <body>
        <nav><a href="/">Home</a> <a href="/news">News</a></nav>
        <article>
            <h1>Breaking News: Major Event</h1>
            <p>This is the first paragraph of a real article about something important that happened in the world today.</p>
            <p>The second paragraph provides additional context and detail about the event, including quotes from officials.</p>
        </article>
        <footer>&copy; 2024 News Corp</footer>
        <script>console.log('analytics');</script>
    </body>
    </html>"#;

    let result = trafilatura.extract_content(html, "https://example.com/article");

    assert_eq!(result.title, "Breaking News Article");
    assert_eq!(result.author, "John Doe");
    assert_eq!(result.description, "A major event happened");

    let content = result.content.as_str();
    assert!(content.contains("Major Event"), "Should contain article heading");
    assert!(content.contains("first paragraph"), "Should contain article body");
    assert!(!content.contains("analytics"), "Should strip script content");

    let word_count = result.word_count;
    assert!(word_count > 10, "Should have substantial word count");
    // The heading and the two paragraphs: 4 + 18 + 15 words.
    assert_eq!(word_count, 37);
}

#[test]
fn trafilatura_lines_and_quality() {
    let t = TrafilaturaExtractor::new();
    let html = "<html><head><title>  T  </title></head><body><article><h1>One   two</h1><nav>skip me</nav><p>three\n four</p><script>x()</script></article></body></html>";
    let r = t.extract_content(html, "u");
    assert_eq!(r.url, "u");
    assert_eq!(r.title, "T");
    assert_eq!(r.author, "");
    assert_eq!(r.description, "");
    // The article has fewer than twenty words, so the body's text is used:
    // the same lines, since the body holds only the article.
    assert_eq!(r.content, "One two\nthree four");
    assert_eq!(r.word_count, 4);
    assert_eq!(r.quality, ContentQuality::Low);
    assert_eq!(r.quality.as_str(), "low");
    assert_eq!(r.method, "Trafilatura (scraper-based article extraction)");
}

#[test]
fn trafilatura_prefers_substantial_main() {
    let t = TrafilaturaExtractor::new();
    let words: Vec<String> = (0..30).map(|i| format!("w{}", i)).collect();
    let html = format!(
        "<html><body><header>Site</header><main><p>{}</p></main><footer>f</footer></body></html>",
        words.join(" ")
    );
    let r = t.extract_content(&html, "u");
    assert_eq!(r.content, words.join(" "));
    assert_eq!(r.word_count, 30);
    assert_eq!(r.quality, ContentQuality::Medium);
}

#[test]
fn test_crawl4ai_more_kinds() {
    let d = Crawl4AIDetector::new();
    let r = d.detect_protection("https://x", "<script src=\"dd.js\"></script> akamai _abck");
    assert_eq!(r.protection_level, ProtectionLevel::Medium);
    assert_eq!(r.detections.len(), 2);
    assert_eq!(r.detections[0].kind, ProtectionKind::Akamai);
    assert_eq!(r.detections[1].kind, ProtectionKind::Datadome);
    assert_eq!(r.detections[0].severity, Severity::Medium);
    assert_eq!(r.protection_level.recommended_action(), "stealth_medium + user_agent_rotation");
    let r = d.detect_protection("https://x", "Access Denied by cf-turnstile");
    assert_eq!(r.protection_level, ProtectionLevel::High);
    assert_eq!(r.detections.len(), 2);
    assert_eq!(r.detections[0].kind.name(), "turnstile");
    assert_eq!(r.detections[1].kind.name(), "waf_block");
    assert_eq!(r.url, "https://x");
}

#[test]
fn test_stealth_real_scripts() {
    let mut stealth = PlaywrightStealth::new();

    let result = stealth.apply_stealth("high");
    let script = result.script.as_str();
    let techniques = &result.techniques_applied;

    assert!(script.contains("navigator"), "Script should override navigator");
    assert!(script.contains("webdriver"), "Script should hide webdriver");
    assert!(script.contains("WebGLRenderingContext"), "High stealth should spoof WebGL");
    assert!(techniques.len() >= 7, "High stealth should apply 7+ techniques, got {}", techniques.len());

    let ua = result.user_agent;
    assert!(ua.contains("Mozilla/5.0"), "UA should look real");

    let low_result = stealth.apply_stealth("low");
    let low_techniques = &low_result.techniques_applied;
    assert_eq!(low_techniques.len(), 1, "Low stealth should only have webdriver_hide");
}

#[test]
fn stealth_levels_nest_and_rotate() {
    let mut s = PlaywrightStealth::new();
    let low = s.apply_stealth("low");
    let medium = s.apply_stealth("medium");
    let high = s.apply_stealth("high");
    let other = s.apply_stealth("extreme");
    assert_eq!(low.techniques_applied, vec!["webdriver_hide"]);
    assert_eq!(medium.techniques_applied.len(), 6);
    assert_eq!(high.techniques_applied.len(), 11);
    assert_eq!(&high.techniques_applied[..6], &medium.techniques_applied[..]);
    assert_eq!(medium.techniques_applied[5], "timezone");
    assert!(medium.script.contains("timeZone = 'America/New_York'"));
    assert!(medium.script.contains("getTimezoneOffset = function() { return 300; }"));
    assert!(high.script.contains("Intl.DateTimeFormat.prototype.resolvedOptions"));
    assert!(!low.script.contains("Timezone"));
    assert_eq!(other.techniques_applied, low.techniques_applied);
    assert_eq!(low.script, "Object.defineProperty(navigator, 'webdriver', { get: () => undefined });");
    assert_eq!(high.script.split('\n').next().unwrap(), low.script);
    // Each call advanced the rotation: the fifth call takes pool entry 4.
    let (ua5, platform5, vendor5) = s.next_user_agent();
    assert_eq!(ua5, "Mozilla/5.0 (X11; Linux x86_64) AppleWebKit/537.36 (KHTML, like Gecko) Chrome/124.0.0.0 Safari/537.36");
    assert_eq!(platform5, "Linux x86_64");
    assert_eq!(vendor5, "Google Inc.");
    let (ua6, _, vendor6) = s.next_user_agent();
    assert_eq!(ua6, "Mozilla/5.0 (Windows NT 10.0; Win64; x64; rv:125.0) Gecko/20100101 Firefox/125.0");
    assert_eq!(vendor6, "");
    let mut t = PlaywrightStealth::new();
    let first = t.next_user_agent();
    for _ in 0..9 {
        t.next_user_agent();
    }
    assert_eq!(t.next_user_agent(), first);
    assert!(medium.script.contains(medium.user_agent));
}

#[test]
fn test_stagehand_multi_candidates() {
    let stagehand = StagehandEngine::new();
    let html = r#"<html><body>
        <input id="search-input" type="search" placeholder="Search..." />
        <input id="query-box" type="text" placeholder="Type your query" />
        <button id="search-btn">Search</button>
        <a href="/search">Advanced Search</a>
    </body></html>"#;

    let result = stagehand.find_element("search", html);
    let candidates = &result.candidates;

    assert!(candidates.len() >= 2, "Should find at least 2 search-related elements, got {}", candidates.len());
    assert_eq!(candidates[0].selector, "#search-input");
}

#[test]
fn stagehand_ranking_and_text_cut() {
    let e = StagehandEngine::new();
    let html = r#"<html><body><button id="a">Search</button><button id="b">Search now</button><button id="c">Search here</button><button id="d">Search it</button><button id="z">Other</button></body></html>"#;
    let r = e.find_element("search", html);
    assert_eq!(r.instruction, "search");
    assert_eq!(r.candidates.len(), 3);
    for w in r.candidates.windows(2) {
        assert!(w[0].score >= w[1].score);
    }
    assert!(r.candidates.iter().all(|c| c.score > 0));
    let none = e.find_element("zzz", "<html><body><p>hi</p></body></html>");
    assert!(none.candidates.is_empty());
    let fallback = none.primary();
    assert_eq!(fallback.selector, "body");
    assert_eq!(fallback.role, "generic");
    assert_eq!(fallback.description, "No matching interactive element found");
    assert!(!fallback.matched);
    let best = r.primary();
    assert!(best.matched);
    assert_eq!(best.selector, r.candidates[0].selector);
    assert_eq!(best.description, r.candidates[0].description);
    // Descriptions cut the text at the last character boundary at or before byte 40.
    let text = format!("{}é and search", "a".repeat(39));
    let cut = e.find_element("search", &format!("<button>{}</button>", text));
    assert_eq!(cut.candidates.len(), 1);
    assert_eq!(cut.candidates[0].description, format!("<button> role=button id=(none) text='{}'", "a".repeat(39)));
    let page = format!("<button>submit {}éé</button>", "x".repeat(32));
    let found = e.find_element("submit", &page);
    assert_eq!(found.candidates.len(), 1);
    assert_eq!(found.candidates[0].selector, "button");
    assert_eq!(found.candidates[0].role, "button");
    assert_eq!(found.candidates[0].description, format!("<button> role=button id=(none) text='submit {}'", "x".repeat(32)));
    // Where byte 40 is a character boundary the cut is exactly the first 40 bytes.
    let ascii = e.find_element("search", &format!("<button>search {}</button>", "y".repeat(40)));
    assert_eq!(ascii.candidates[0].description, format!("<button> role=button id=(none) text='search {}'", "y".repeat(33)));
    // One-character words are not search terms: nothing matches.
    let single = e.find_element("x", "<button id='x'>x</button>");
    assert!(single.candidates.is_empty());
    assert_eq!(single.instruction, "x");
    assert_eq!(single.primary().selector, "body");
}

#[test]
fn firecrawl_schema_fields() {
    let f = FirecrawlExtractor::new();
    let html = "<html><head><title>Shop</title></head><body><p>Mail support@nexusmcp.dev or support@nexusmcp.dev, price $99.99</p><a href='/x'>x</a></body></html>";
    let keys = vec!["title".to_string(), "emails".to_string(), "prices".to_string(), "links_count".to_string()];
    let out = f.extract_with_schema(html, &keys);
    assert_eq!(out.len(), 4);
    assert_eq!(out[0].key, "title");
    match &out[0].value {
        FieldValue::Text(t) => assert_eq!(t, "Shop"),
        _ => panic!("title"),
    }
    match &out[1].value {
        FieldValue::List(v) => assert_eq!(v, &vec!["support@nexusmcp.dev".to_string()]),
        _ => panic!("emails"),
    }
    match &out[2].value {
        FieldValue::List(v) => assert_eq!(v, &vec!["$99.99".to_string()]),
        _ => panic!("prices"),
    }
    match &out[3].value {
        FieldValue::Count(n) => assert_eq!(*n, 1),
        _ => panic!("links"),
    }
}

#[test]
fn memory_store_then_search() {
    let mut m = PersistentVectorMemory::new();
    m.store("https://a.example", "Visited page: Alpha");
    m.store("https://b.example", "Visited page: Beta");
    m.store("https://a.example", "Visited page: Alpha two");
    assert_eq!(m.len(), 2);
    let r = m.search("Alpha");
    assert_eq!(r.query, "Alpha");
    assert!(!r.persistent);
    assert_eq!(r.results.len(), 1);
    assert_eq!(r.results[0].key, "https://a.example");
    assert_eq!(r.results[0].content, "Visited page: Alpha two");
    let all = m.search("example");
    assert_eq!(all.results.len(), 2);
    assert_eq!(all.results[1].key, "https://b.example");
    assert!(m.search("nothing").results.is_empty());
}

#[test]
fn stagehand_lowercases_instruction() {
    let e = StagehandEngine::new();
    let html = r#"<html><body><input id="search-input" type="search" placeholder="Search..." /></body></html>"#;
    let upper = e.find_element("SEARCH", html);
    let lower = e.find_element("search", html);
    assert_eq!(upper.instruction, "SEARCH");
    assert_eq!(upper.candidates.len(), lower.candidates.len());
    assert_eq!(upper.candidates[0].selector, "#search-input");
    assert_eq!(upper.candidates[0].score, lower.candidates[0].score);
}

#[test]
fn larger_page_is_at_least_as_protected() {
    let d = Crawl4AIDetector::new();
    let small = "<div>datadome</div>";
    let large = "<html><body><div>datadome</div><div class='g-recaptcha'></div></body></html>";
    let a = d.detect_protection("", small);
    let b = d.detect_protection("", large);
    assert_eq!(a.protection_level, ProtectionLevel::Medium);
    assert_eq!(b.protection_level, ProtectionLevel::High);
    assert!(a.detections.iter().all(|x| b.detections.iter().any(|y| y.kind == x.kind)));
}
