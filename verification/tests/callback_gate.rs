use oauth_gate::articles::{select_articles, Article};
use oauth_gate::callback::{process_callback, CallbackGate};
use oauth_gate::credentials::CredentialStore;
use oauth_gate::oauth::{csrf_cookie_value, github_auth_url_builder, AuthResponse};
use oauth_gate::pages::{home_page, oauth_home_page};

fn gate(query: Option<&str>, cookie: Option<&str>) -> CallbackGate {
    let q = query.map(String::from);
    let c = cookie.map(String::from);
    process_callback(q.as_ref(), c.as_ref())
}

#[test]
fn matching_state_and_cookie_proceed() {
    let r = gate(Some("state=S&code=C"), Some("auth_token=S"));
    assert_eq!(r, CallbackGate::Proceed(String::from("C")));
}

#[test]
fn csrf_mismatch_is_rejected_regardless_of_code() {
    let r = gate(Some("state=S&code=C"), Some("auth_token=T"));
    assert_eq!(r, CallbackGate::Reject(String::from("Invalid CSRF Token"), 400));
    let r = gate(Some("state=S&code=perfectly-valid-code"), Some("auth_token=T"));
    assert_eq!(r, CallbackGate::Reject(String::from("Invalid CSRF Token"), 400));
    let r = gate(Some("state=S&code=C"), None);
    assert_eq!(r, CallbackGate::Reject(String::from("Invalid CSRF Token"), 400));
}

#[test]
fn provider_error_is_echoed() {
    let r = gate(Some("error=access_denied"), Some("auth_token=S"));
    assert_eq!(r, CallbackGate::Reject(String::from("Error: access_denied"), 400));
    let r = gate(Some("state=S&error=bad&code=C"), Some("auth_token=S"));
    assert_eq!(r, CallbackGate::Reject(String::from("Error: bad"), 400));
}

#[test]
fn empty_code_or_state_is_rejected() {
    let r = gate(Some("state=S"), Some("auth_token=S"));
    assert_eq!(r, CallbackGate::Reject(String::from("Invalid code"), 400));
    let r = gate(Some("code=C"), Some("auth_token="));
    assert_eq!(r, CallbackGate::Reject(String::from("Invalid code"), 400));
    let r = gate(Some("state=&code=C"), Some("auth_token="));
    assert_eq!(r, CallbackGate::Reject(String::from("Invalid code"), 400));
    let r = gate(None, Some("auth_token=S"));
    assert_eq!(r, CallbackGate::Reject(String::from("Invalid query"), 400));
}

#[test]
fn later_parameters_overwrite_earlier_ones() {
    let r = gate(Some("code=A&code=B&state=S"), Some("auth_token=S"));
    assert_eq!(r, CallbackGate::Proceed(String::from("B")));
}

#[test]
fn only_the_first_value_segment_counts() {
    let r = gate(Some("state=S&code=C=tail"), Some("auth_token=S"));
    assert_eq!(r, CallbackGate::Proceed(String::from("C")));
    let r = gate(Some("state=S=tail&code=C"), Some("auth_token=S"));
    assert_eq!(r, CallbackGate::Proceed(String::from("C")));
}

#[test]
fn pair_without_a_value_reads_as_empty() {
    let r = gate(Some("state=S&code"), Some("auth_token=S"));
    assert_eq!(r, CallbackGate::Reject(String::from("Invalid code"), 400));
}

#[test]
fn cookie_header_variants_are_understood() {
    let r = gate(Some("state=S&code=C"), Some("theme=dark; auth_token=S"));
    assert_eq!(r, CallbackGate::Proceed(String::from("C")));
    let r = gate(Some("state=S&code=C"), Some("auth_token=T; auth_token=S"));
    assert_eq!(r, CallbackGate::Proceed(String::from("C")));
    let r = gate(Some("state=S&code=C"), Some("theme=dark"));
    assert_eq!(r, CallbackGate::Reject(String::from("Invalid CSRF Token"), 400));
}

#[test]
fn full_callback_creates_the_record() {
    let r = gate(Some("state=S&code=C"), Some("auth_token=S"));
    let code = match r {
        CallbackGate::Proceed(code) => code,
        CallbackGate::Reject(m, s) => panic!("rejected: {} {}", m, s),
    };
    assert_eq!(code, "C");
    let mut store = CredentialStore::new();
    let profile = AuthResponse {
        name: String::from("Name Seven"),
        login: String::from("seven"),
        id: 7,
    };
    let creds = store.get_or_create(&profile);
    assert_eq!(creds.uuid, 7);
    assert_eq!(creds.client_id.len(), 16);
    assert_eq!(creds.client_secret.len(), 32);
    assert_eq!(store.len(), 1);
}

#[test]
fn authorization_url_is_built_for_github() {
    let a = github_auth_url_builder("client-id", "client-secret");
    assert!(a.url.starts_with("https://github.com/login/oauth/authorize?"));
    assert!(a.url.contains("client_id=client-id&"));
    assert_eq!(a.csrf_token.len(), 22);
    assert!(a.csrf_token.chars().all(|c| c.is_ascii_alphanumeric() || c == '-' || c == '_'));
    assert!(a.url.contains(&format!("state={}", a.csrf_token)));
    assert!(a.url.contains("code_challenge="));
    assert!(a.url.contains("code_challenge_method=S256"));
    assert!(a.url.contains("redirect_uri=https%3A%2F%2Fapi.shivadityas.com%2Fcallback%2Fgithub"));
    assert!(a.url.contains("scope=user%3Aemail+read%3Auser+read%3Aorg+public_repo"));
}

#[test]
fn csrf_cookie_is_scoped_to_root() {
    assert_eq!(csrf_cookie_value("S"), "auth_token=S; Path=/");
}

#[test]
fn pages_render_their_links() {
    assert!(home_page().contains("Welcome to the home page!"));
    let oauth = oauth_home_page();
    assert!(oauth.contains("Login with GitHub"));
    assert!(oauth.contains("/oauth/github"));
}

fn article(title: &str) -> Article {
    Article {
        title: String::from(title),
        link: String::from("https://example.invalid/a"),
        time: String::from("2024-01-01T00:00:00Z"),
        author: String::from("Author"),
        sourcelink: String::from("https://example.invalid/logo.png"),
        sourcename: String::from("Example"),
        image_link: String::new(),
    }
}

#[test]
fn incomplete_articles_are_dropped() {
    let mut incomplete = article("");
    incomplete.title = String::new();
    let found = vec![article("one"), incomplete, article("two")];
    let kept = select_articles(found).expect("two complete articles");
    assert_eq!(kept.len(), 2);
    assert_eq!(kept[0].title, "one");
    assert_eq!(kept[1].title, "two");
}

#[test]
fn at_most_ten_articles_are_kept() {
    let mut found = Vec::new();
    for i in 0..12 {
        found.push(article(&format!("title {}", i)));
    }
    let kept = select_articles(found).expect("complete articles");
    assert_eq!(kept.len(), 10);
    assert_eq!(kept[0].title, "title 0");
    assert_eq!(kept[9].title, "title 9");
}

#[test]
fn no_complete_articles_is_an_error() {
    let mut incomplete = article("x");
    incomplete.author = String::new();
    let e = select_articles(vec![incomplete]).expect_err("nothing to keep");
    assert_eq!(e, "No articles found");
}
