use nexusmcp::extraction::AdvancedExtractor;
use nexusmcp::text::{find_chars, first_chars, word_count};

#[test]
fn find_and_count() {
    let s: Vec<char> = "abcabc".chars().collect();
    let t: Vec<char> = "ca".chars().collect();
    assert_eq!(find_chars(&s, &t), Some(2));
    let u: Vec<char> = "zz".chars().collect();
    assert_eq!(find_chars(&s, &u), None);
    assert_eq!(find_chars(&s, &[]), Some(0));
    assert_eq!(word_count("  a\tb\n c  "), 3);
    assert_eq!(word_count(""), 0);
    assert_eq!(first_chars("héllo", 2), "hé");
    assert_eq!(first_chars("hi", 5), "hi");
}

#[test]
fn markdown_conversion_uses_html2md() {
    let x = AdvancedExtractor::new();
    let md = x.html_to_markdown("<h1>Title</h1><p>Body</p>", "https://u");
    assert!(md.contains("Title"));
    assert!(md.contains("Body"));
}
