use portfolio_backend::validation::{slug_from_lowercase, unique_tags};
use portfolio_backend::validation::{
    generate_slug, is_valid_email, is_valid_phone, is_valid_slug, is_valid_url, normalize_tags, sanitize_html,
};

#[test]
fn test_email_validation() {
    assert!(is_valid_email("test@example.com"));
    assert!(is_valid_email("user.name+tag@domain.co.uk"));
    assert!(!is_valid_email("invalid-email"));
    assert!(!is_valid_email("@example.com"));
    assert!(!is_valid_email("test@"));
}

#[test]
fn test_slug_generation() {
    assert_eq!(generate_slug("Hello World"), "hello-world");
    assert_eq!(generate_slug("My First Blog Post!"), "my-first-blog-post");
    assert_eq!(generate_slug("   Multiple   Spaces   "), "multiple-spaces");
    assert_eq!(
        generate_slug("Special-Characters@#$%"),
        "special-characters"
    );
}

#[test]
fn test_slug_validation() {
    assert!(is_valid_slug("hello-world"));
    assert!(is_valid_slug("test123"));
    assert!(!is_valid_slug("Hello-World"));
    assert!(!is_valid_slug("hello_world"));
    assert!(!is_valid_slug("-hello"));
    assert!(!is_valid_slug("hello-"));
}

#[test]
fn slug_edge_cases() {
    assert_eq!(generate_slug(""), "");
    assert_eq!(generate_slug("---"), "");
    assert_eq!(generate_slug("snake_case__title"), "snake-case-title");
    assert_eq!(generate_slug("ÉCOLE Été"), "école-été");
    assert!(!is_valid_slug(""));
    assert!(!is_valid_slug(&"a".repeat(256)));
    assert!(is_valid_slug(&"a".repeat(255)));
}

#[test]
fn phone_validation() {
    assert!(is_valid_phone("+6281234567890"));
    assert!(is_valid_phone("12"));
    assert!(!is_valid_phone("0123"));
    assert!(!is_valid_phone("+1"));
    assert!(!is_valid_phone("phone"));
}

#[test]
fn url_validation() {
    assert!(is_valid_url("http://example.com"));
    assert!(is_valid_url("https://example.com"));
    assert!(!is_valid_url("ftp://example.com"));
    assert!(!is_valid_url("http:/"));
    assert!(!is_valid_url(""));
}

#[test]
fn html_is_escaped_in_order() {
    assert_eq!(sanitize_html("plain"), "plain");
    assert_eq!(sanitize_html("a & b"), "a &amp; b");
    assert_eq!(sanitize_html("<b>"), "&amp;lt;b&amp;gt;");
    assert_eq!(sanitize_html("\"it's\""), "&amp;quot;it&amp;#x27;s&amp;quot;");
}

#[test]
fn tags_are_trimmed_lowercased_and_unique() {
    let tags = vec![
        "  Rust ".to_string(),
        "rust".to_string(),
        "   ".to_string(),
        "WEB".to_string(),
        "x".repeat(51),
        "y".repeat(50),
    ];
    let out = normalize_tags(tags);
    assert_eq!(out, vec!["rust".to_string(), "web".to_string(), "y".repeat(50)]);
    assert!(normalize_tags(vec![]).is_empty());
}

#[test]
fn rules_after_lowercasing() {
    assert_eq!(slug_from_lowercase("  hello__world  "), "hello-world");
    assert_eq!(slug_from_lowercase("Keep Case"), "Keep-Case");
    let out = unique_tags(vec!["a".to_string(), "".to_string(), "a".to_string(), "b".to_string()]);
    assert_eq!(out, vec!["a".to_string(), "b".to_string()]);
}
