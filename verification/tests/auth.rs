use maistats::auth::{
    check_login_result, extract_attr_value, extract_login_post_url, find_form_action,
    login_page_action, looks_like_login_or_expired, AuthError, LoginPageAction, PageUrl,
};

fn page(serialized: &str, path: &str, domain: Option<&str>) -> PageUrl {
    PageUrl {
        serialized: serialized.to_string(),
        path: path.to_string(),
        domain: domain.map(|d| d.to_string()),
    }
}

#[test]
fn extracts_sid_form_action_from_login_page() {
    let html = r#"
        <html>
            <body>
                <form action="/common_auth/login/sid" method="post" id="sidForm">
                    <input name="sid" />
                </form>
            </body>
        </html>
    "#;

    assert_eq!(
        find_form_action(html, "sidForm").as_deref(),
        Some("/common_auth/login/sid")
    );
}

#[test]
fn resolves_login_post_url_without_trailing_slash() {
    let html = r#"
        <form action="/common_auth/login/sid" method="post" id="sidForm"></form>
    "#;
    let login_page_url = "https://lng-tgk-aime-gw.am-all.net/common_auth/login?site_id=maimaidxex";

    let post_url = extract_login_post_url(login_page_url, html).expect("post url");

    assert_eq!(post_url, "https://lng-tgk-aime-gw.am-all.net/common_auth/login/sid");
}

#[test]
fn falls_back_to_known_login_path_when_action_missing() {
    let login_page_url = "https://lng-tgk-aime-gw.am-all.net/common_auth/login?site_id=maimaidxex";

    let post_url = extract_login_post_url(login_page_url, "<form id=\"sidForm\"></form>")
        .expect("post url");

    assert_eq!(post_url, "https://lng-tgk-aime-gw.am-all.net/common_auth/login/sid");
}

#[test]
fn extracts_single_quoted_attribute_values() {
    let tag = "<form action='/common_auth/login/sid' id='sidForm'>";
    assert_eq!(
        extract_attr_value(tag, "action").as_deref(),
        Some("/common_auth/login/sid")
    );
}

#[test]
fn attribute_without_closing_quote_gives_nothing() {
    assert_eq!(extract_attr_value("<form action=\"/x id='y'>", "action"), None);
    assert_eq!(extract_attr_value("<form method='post'>", "action"), None);
}

#[test]
fn detects_error_page_as_unauthenticated() {
    let url = page(
        "https://maimaidx-eng.com/maimai-mobile/error/",
        "/maimai-mobile/error/",
        Some("maimaidx-eng.com"),
    );
    let body = "<title>ERROR CODE: 500</title>The connection time has been expired";

    assert!(looks_like_login_or_expired(&url, body));
}

#[test]
fn record_page_is_a_live_session() {
    let url = page(
        "https://maimaidx-eng.com/maimai-mobile/record/",
        "/maimai-mobile/record/",
        Some("maimaidx-eng.com"),
    );
    assert!(!looks_like_login_or_expired(&url, "<html>records</html>"));
    assert!(check_login_result(&url, "<html>records</html>").is_ok());
    assert_eq!(
        check_login_result(&url, "Please login again."),
        Err(AuthError::LoginFailed)
    );
    let aime = page(
        "https://lng-tgk-aime-gw.am-all.net/common_auth/x",
        "/common_auth/x",
        Some("lng-tgk-aime-gw.am-all.net"),
    );
    assert!(looks_like_login_or_expired(&aime, ""));
}

#[test]
fn login_page_with_form_posts_credentials() {
    let url = page(
        "https://lng-tgk-aime-gw.am-all.net/common_auth/login?site_id=maimaidxex",
        "/common_auth/login",
        Some("lng-tgk-aime-gw.am-all.net"),
    );
    let html = r#"<form action="/common_auth/login/sid" id="sidForm"></form>"#;
    match login_page_action(&url, html) {
        Ok(LoginPageAction::PostCredentials(u)) => {
            assert_eq!(u, "https://lng-tgk-aime-gw.am-all.net/common_auth/login/sid")
        }
        _ => panic!("expected a post"),
    }
    let home = page(
        "https://maimaidx-eng.com/maimai-mobile/home/",
        "/maimai-mobile/home/",
        Some("maimaidx-eng.com"),
    );
    assert!(matches!(
        login_page_action(&home, "<html>home</html>"),
        Ok(LoginPageAction::AlreadySignedIn)
    ));
    assert!(matches!(
        login_page_action(&url, "<html>no form</html>"),
        Err(AuthError::UnexpectedLoginResponse)
    ));
}
