use portfolio_backend::content::{check_featured_change, featured_limit, validate_project};
use portfolio_backend::settings::feature_enabled;
use portfolio_backend::content::{prepare_new_post, prepare_post_update, unique_slug};
use portfolio_backend::models::{CreatePostRequest, UpdatePostRequest};
use portfolio_backend::content::{admit_comment, CommentStatus};
use portfolio_backend::content::{
    contains_spam_keyword, dash_joined_words, is_spam_given, moderation_given, space_joined_words,
};
use portfolio_backend::content::{
    comment_rate_limited, comment_window_seconds, extract_keywords, generate_post_slug, generate_seo_description,
    generate_seo_title, is_spam_content, normalize_category, requires_moderation, validate_comment_content,
    validate_post_content, validate_service_request, validate_status_transition,
};
use portfolio_backend::errors::AppError;
use portfolio_backend::notifications::{validate_delivery_method, validate_notification_type};
use portfolio_backend::settings::{
    validate_feature_settings, validate_general_settings, validate_security_bounds, CommentRateLimitSettings,
    FeatureSettings, GeneralSettings, SecuritySettings,
};

fn validation_message(r: Result<(), AppError>) -> String {
    match r {
        Err(AppError::Validation(m)) => m,
        other => panic!("expected a validation error, got {:?}", other),
    }
}

#[test]
fn post_content_rules() {
    let body = "x".repeat(50);
    assert!(validate_post_content("A good title", &body).is_ok());
    assert_eq!(validation_message(validate_post_content("   ", &body)), "Post title cannot be empty");
    assert_eq!(
        validation_message(validate_post_content(" abc ", &body)),
        "Post title must be at least 5 characters long"
    );
    assert_eq!(
        validation_message(validate_post_content(&"t".repeat(201), &body)),
        "Post title cannot exceed 200 characters"
    );
    assert_eq!(validation_message(validate_post_content("A good title", "  ")), "Post content cannot be empty");
    assert_eq!(
        validation_message(validate_post_content("A good title", &"x".repeat(49))),
        "Post content must be at least 50 characters long"
    );
}

#[test]
fn service_request_rules() {
    assert!(validate_service_request("Web", "Builds websites").is_ok());
    assert_eq!(validation_message(validate_service_request("", "Builds websites")), "Service title cannot be empty");
    assert_eq!(
        validation_message(validate_service_request("ab", "Builds websites")),
        "Service title must be at least 3 characters long"
    );
    assert_eq!(validation_message(validate_service_request("Web", " ")), "Service description cannot be empty");
    assert_eq!(
        validation_message(validate_service_request("Web", "short")),
        "Service description must be at least 10 characters long"
    );
}

#[test]
fn post_slug_and_category() {
    assert_eq!(generate_post_slug("  Hello, World! "), "hello-world");
    assert_eq!(generate_post_slug("Rust & Verus--2024"), "rust-verus-2024");
    assert_eq!(generate_post_slug("!!!"), "");
    assert_eq!(normalize_category("  Web   Development! "), "web development");
    assert_eq!(normalize_category("AI/ML"), "ai ml");
    assert_eq!(normalize_category(""), "");
}

#[test]
fn seo_text_is_cut_with_ellipsis() {
    assert_eq!(generate_seo_title("Short title"), "Short title");
    let long = "a".repeat(61);
    assert_eq!(generate_seo_title(&long), format!("{}...", "a".repeat(57)));
    assert_eq!(generate_seo_title(&"b".repeat(60)), "b".repeat(60));
    assert_eq!(generate_seo_description("Hello <b>world</b>!"), "Hello bworldb!");
    let body = "word ".repeat(40);
    let d = generate_seo_description(&body);
    assert_eq!(d.len(), 160);
    assert!(d.ends_with("..."));
}

#[test]
fn keywords_follow_tags() {
    let tags = vec!["rust".to_string(), "web".to_string()];
    assert_eq!(
        extract_keywords("Learning Verification with Verus is great fun indeed truly amazing", &tags),
        "rust, web, learning, verification, verus, great, indeed"
    );
    assert_eq!(extract_keywords("tiny", &vec![]), "");
    assert_eq!(extract_keywords("Elephants", &vec![]), "elephants");
}

#[test]
fn comment_content_rules() {
    assert!(validate_comment_content("Nice post!", "Ann", "ann@example.com").is_ok());
    assert_eq!(
        validation_message(validate_comment_content("   ", "Ann", "ann@example.com")),
        "Comment content cannot be empty"
    );
    assert_eq!(
        validation_message(validate_comment_content("hey", "Ann", "ann@example.com")),
        "Comment must be at least 5 characters long"
    );
    assert_eq!(
        validation_message(validate_comment_content(&"x".repeat(5001), "Ann", "a@b")),
        "Comment cannot exceed 5000 characters"
    );
    assert_eq!(validation_message(validate_comment_content("Nice post!", " ", "a@b")), "Author name is required");
    assert_eq!(
        validation_message(validate_comment_content("Nice post!", &"n".repeat(101), "a@b")),
        "Author name cannot exceed 100 characters"
    );
    assert_eq!(validation_message(validate_comment_content("Nice post!", "Ann", "")), "Author email is required");
    assert_eq!(validation_message(validate_comment_content("Nice post!", "Ann", "ann")), "Invalid email address");
}

#[test]
fn status_transitions() {
    for s in ["pending", "approved", "rejected", "spam"] {
        assert!(validate_status_transition(s).is_ok());
    }
    assert_eq!(validation_message(validate_status_transition("deleted")), "Invalid comment status: deleted");
}

#[test]
fn spam_heuristics() {
    assert!(!is_spam_content("Thanks for the thoughtful article."));
    assert!(is_spam_content("You are a WINNER, claim your prize"));
    assert!(is_spam_content("see http://a http://b http://c"));
    assert!(!is_spam_content("read about http and https in these notes"));
    assert!(is_spam_content("THIS IS LOUD text"));
    assert!(is_spam_content("what?!?! really?!?!"));
    assert!(!is_spam_content("12345 67890"));
}

#[test]
fn moderation_rules() {
    assert!(requires_moderation("Lovely article, thanks", "a@gmail.com", true));
    assert!(!requires_moderation("Lovely article, thanks", "a@Gmail.com", false));
    assert!(requires_moderation("Found a bug in the code", "a@gmail.com", false));
    assert!(requires_moderation("Lovely article, thanks", "a@company.com", false));
    assert!(requires_moderation("short", "a@gmail.com", false));
    assert!(requires_moderation(&"y".repeat(600), "a@gmail.com", false));
}

#[test]
fn comment_rate_decision() {
    let s = CommentRateLimitSettings::default();
    assert!(!comment_rate_limited(&s, 9, 1));
    assert!(comment_rate_limited(&s, 10, 0));
    assert!(comment_rate_limited(&s, 0, 2));
    let off = CommentRateLimitSettings { enabled: false, ..CommentRateLimitSettings::default() };
    assert!(!comment_rate_limited(&off, 100, 100));
    assert_eq!(comment_window_seconds(&s), 60);
}

#[test]
fn notification_choices() {
    assert!(validate_notification_type("login").is_ok());
    assert!(validate_notification_type("system_alert").is_ok());
    let m = validation_message(validate_notification_type("party"));
    assert!(m.starts_with("Invalid notification type: party. Valid types are: login, logout, "));
    assert!(validate_delivery_method("both").is_ok());
    assert_eq!(
        validation_message(validate_delivery_method("sms")),
        "Invalid delivery method: sms. Valid methods are: in_app, email, both"
    );
}

#[test]
fn settings_validation() {
    let mut f = FeatureSettings::default();
    assert!(validate_feature_settings(&f).is_ok());
    f.blog_enabled = false;
    f.portfolio_enabled = false;
    f.services_enabled = false;
    assert!(validate_feature_settings(&f).is_err());
    let mut s = SecuritySettings::default();
    assert!(validate_security_bounds(&s).is_ok());
    s.session_timeout = 481;
    assert_eq!(
        validation_message(validate_security_bounds(&s)),
        "Session timeout must be between 5 and 480 minutes"
    );
    s.session_timeout = 30;
    s.max_login_attempts = 2;
    assert_eq!(validation_message(validate_security_bounds(&s)), "Max login attempts must be between 3 and 10");
    let mut g = GeneralSettings::default();
    assert!(validate_general_settings(&g).is_ok());
    g.site_name = "  ".to_string();
    assert_eq!(validation_message(validate_general_settings(&g)), "Site name cannot be empty");
    g.site_name = "Site".to_string();
    g.site_description = "d".repeat(501);
    assert!(validate_general_settings(&g).is_err());
}

#[test]
fn rules_on_lowercase_forms() {
    assert_eq!(dash_joined_words("--hello,,world--"), "hello-world");
    assert_eq!(space_joined_words(" web\tdev/ops "), "web dev ops");
    assert!(contains_spam_keyword("click here now"));
    assert!(!contains_spam_keyword("Click Here"));
    assert!(is_spam_given("Nothing odd here", "buy now"));
    assert!(!is_spam_given("Nothing odd here", "nothing odd here"));
    assert!(!moderation_given("A fine comment", "a fine comment", "x@yahoo.com", false));
    assert!(moderation_given("A fine comment", "a fine comment", "x@Yahoo.com", false));
    assert!(moderation_given("A fine comment", "a legal comment", "x@yahoo.com", false));
}

#[test]
fn comment_admission_order() {
    assert_eq!(
        validation_message(admit_comment(false, "Nice post!", "Ann", "ann@gmail.com", false, false).map(|_| ())),
        "Comments are currently disabled"
    );
    assert_eq!(
        validation_message(admit_comment(true, "hey", "Ann", "ann@gmail.com", false, false).map(|_| ())),
        "Comment must be at least 5 characters long"
    );
    assert_eq!(
        validation_message(admit_comment(true, "free money inside", "Ann", "ann@gmail.com", true, false).map(|_| ())),
        "Comment appears to be spam and has been rejected"
    );
    assert_eq!(
        validation_message(admit_comment(true, "Nice post, thanks", "Ann", "ann@gmail.com", true, false).map(|_| ())),
        "Too many comments from this IP address. Please wait before posting again."
    );
    let ok = admit_comment(true, "Nice post, thanks", "Ann", "ann@gmail.com", false, false).unwrap();
    assert_eq!(ok, CommentStatus::Approved);
    assert_eq!(ok.as_str(), "approved");
    let held = admit_comment(true, "Nice post, thanks", "Ann", "ann@gmail.com", false, true).unwrap();
    assert_eq!(held.as_str(), "pending");
}

fn new_post(slug: &str, seo_title: Option<&str>) -> CreatePostRequest {
    CreatePostRequest {
        title: "Verified Rate Limiting".to_string(),
        slug: slug.to_string(),
        content: "Counting login failures per address and per username keeps guessing slow.".to_string(),
        excerpt: None,
        category: "security".to_string(),
        tags: vec!["rust".to_string()],
        featured_image: None,
        featured: None,
        published: None,
        seo_title: seo_title.map(|s| s.to_string()),
        seo_description: Some(String::new()),
        seo_keywords: None,
    }
}

#[test]
fn new_post_defaults() {
    let p = prepare_new_post(new_post("", None)).unwrap();
    assert_eq!(p.slug, "verified-rate-limiting");
    assert_eq!(p.seo_title.as_deref(), Some("Verified Rate Limiting"));
    assert_eq!(
        p.seo_description.as_deref(),
        Some("Counting login failures per address and per username keeps guessing slow.")
    );
    assert_eq!(p.seo_keywords.as_deref(), Some("rust, counting, login, failures, address, username"));
    let kept = prepare_new_post(new_post("custom", Some("Own title"))).unwrap();
    assert_eq!(kept.slug, "custom");
    assert_eq!(kept.seo_title.as_deref(), Some("Own title"));
    let mut short = new_post("", None);
    short.content = "too short".to_string();
    assert!(matches!(prepare_new_post(short), Err(AppError::Validation(_))));
    assert_eq!(unique_slug("post".to_string(), false, 17), "post");
    assert_eq!(unique_slug("post".to_string(), true, 1_700_000_000), "post-1700000000");
}

#[test]
fn post_update_defaults() {
    let p = new_post("kept-slug", None);
    let update = UpdatePostRequest {
        title: p.title,
        slug: p.slug,
        content: p.content,
        excerpt: None,
        category: p.category,
        tags: vec![],
        featured_image: None,
        featured: None,
        published: None,
        seo_title: None,
        seo_description: None,
        seo_keywords: Some("given".to_string()),
    };
    let again = UpdatePostRequest { seo_keywords: None, ..UpdatePostRequest {
        title: update.title.clone(),
        slug: update.slug.clone(),
        content: update.content.clone(),
        excerpt: None,
        category: update.category.clone(),
        tags: vec![],
        featured_image: None,
        featured: None,
        published: None,
        seo_title: None,
        seo_description: None,
        seo_keywords: None,
    } };
    assert_eq!(validation_message(prepare_post_update(again, true).map(|_| ())), "Slug already exists");
    let u = prepare_post_update(update, false).unwrap();
    assert_eq!(u.slug, "kept-slug");
    assert_eq!(u.seo_keywords.as_deref(), Some("given"));
    assert_eq!(u.seo_title.as_deref(), Some("Verified Rate Limiting"));
}

#[test]
fn feature_queries() {
    let mut f = FeatureSettings::default();
    f.search_enabled = false;
    assert_eq!(f.is_enabled("search").unwrap(), false);
    assert_eq!(f.is_enabled("contactForm").unwrap(), true);
    match f.is_enabled("chat") {
        Err(AppError::BadRequest(m)) => assert_eq!(m, "Unknown feature: chat"),
        other => panic!("unexpected {:?}", other),
    }
    assert_eq!(feature_enabled(None, "anything").unwrap(), true);
    assert_eq!(feature_enabled(Some(&f), "search").unwrap(), false);
}

#[test]
fn portfolio_rules() {
    assert!(validate_project("Site", "A site").is_ok());
    assert_eq!(validation_message(validate_project(" ", "A site")), "Project title cannot be empty");
    assert_eq!(validation_message(validate_project("Site", "")), "Project description cannot be empty");
    assert_eq!(featured_limit(None).unwrap(), 5);
    assert_eq!(featured_limit(Some(50)).unwrap(), 50);
    assert!(matches!(featured_limit(Some(51)), Err(AppError::Validation(_))));
    assert!(check_featured_change(true, 9).is_ok());
    assert!(check_featured_change(false, 99).is_ok());
    assert_eq!(
        validation_message(check_featured_change(true, 10)),
        "Cannot have more than 10 featured projects"
    );
}
