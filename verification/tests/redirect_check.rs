use api_auth::provider::{redirect_target, GitHubTokenRequest};
use api_auth::redirect::is_allowed_redirect;

#[test]
fn exact_origin_match_is_allowed() {
    let allowed = vec![
        "https://app.example.com".to_string(),
        "https://other.example.org".to_string(),
    ];
    assert!(is_allowed_redirect(
        "https://app.example.com/after/login?next=1",
        &allowed
    ));
    assert!(is_allowed_redirect("https://other.example.org", &allowed));
}

#[test]
fn scheme_and_host_must_match() {
    let allowed = vec!["https://app.example.com".to_string()];
    assert!(!is_allowed_redirect("http://app.example.com/", &allowed));
    assert!(!is_allowed_redirect("https://evil.example.com/", &allowed));
    assert!(!is_allowed_redirect(
        "https://app.example.com.evil.net/",
        &allowed
    ));
}

#[test]
fn unparseable_or_hostless_targets_are_rejected() {
    let allowed = vec!["https://app.example.com".to_string()];
    assert!(!is_allowed_redirect("not a url", &allowed));
    assert!(!is_allowed_redirect("/relative/path", &allowed));
    assert!(!is_allowed_redirect("data:text/plain,hello", &allowed));
}

#[test]
fn empty_allow_list_rejects_everything() {
    let allowed: Vec<String> = Vec::new();
    assert!(!is_allowed_redirect("https://app.example.com/", &allowed));
}

#[test]
fn redirect_target_falls_back_to_default() {
    let explicit = GitHubTokenRequest {
        code: "c".to_string(),
        redirect_to: Some("https://app.example.com/home".to_string()),
    };
    assert_eq!(redirect_target(&explicit), "https://app.example.com/home");

    let implicit = GitHubTokenRequest { code: "c".to_string(), redirect_to: None };
    assert_eq!(redirect_target(&implicit), "https://auth-debug.pages.dev");
}
