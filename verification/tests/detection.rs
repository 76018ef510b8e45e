use nexusmcp::hidden_gems::crawl4ai::{Crawl4AIDetector, ProtectionLevel};

#[test]
fn test_crawl4ai_html_detection() {
    let detector = Crawl4AIDetector::new();

    let cf_html = r#"<html><body><div class="cf-challenge-running">Checking your browser</div></body></html>"#;
    let result = detector.detect_protection("https://example.com", cf_html);
    assert_eq!(result.protection_level.name(), "high");
    assert!(result.detections.iter().any(|d| d.kind.name() == "cloudflare"));

    let recaptcha_html = r#"<html><body><div class="g-recaptcha" data-sitekey="key123"></div></body></html>"#;
    let result = detector.detect_protection("https://example.com", recaptcha_html);
    assert_eq!(result.protection_level.name(), "high");

    let clean_html = r#"<html><body><h1>Hello World</h1></body></html>"#;
    let result = detector.detect_protection("https://example.com", clean_html);
    assert_eq!(result.protection_level, ProtectionLevel::Clear);
    assert_eq!(result.protection_level.name(), "none");
    assert_eq!(result.detections.len(), 0);
}
