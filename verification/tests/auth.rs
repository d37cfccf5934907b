use gallog_cleaner::auth::{
    any_found, form_inputs_from, Login, LoginEvent, LoginStep, SessionManager,
};
use gallog_cleaner::commands::{get_galleries, start_cleaning};
use gallog_cleaner::error::{Error, Missing};
use gallog_cleaner::html::Element;
use gallog_cleaner::http::{Body, Method};

const LANDING: &str = "<html><body><form id=\"login_process\">\
    <input type=\"hidden\" name=\"s_url\" value=\"//www.dcinside.com/\">\
    <input type=\"hidden\" name=\"tk\" value=\"one\">\
    <input type=\"hidden\" name=\"user_id\" value=\"\">\
    <input type=\"hidden\" name=\"tk\" value=\"two\">\
    <input type=\"hidden\" name=\"novalue\">\
    <input type=\"hidden\" value=\"noname\">\
    <div><input name=\"nested\" value=\"n\"></div>\
    </form><input name=\"outside\" value=\"o\"></body></html>";

const LOGGED_IN: &str = "<html><body><a class=\"btn logout\" href=\"#\">로그아웃</a></body></html>";
const LOGGED_OUT: &str = "<html><body><a class=\"login\" href=\"#\">로그인</a></body></html>";

fn pair(name: &str, value: &str) -> (String, String) {
    (name.to_string(), value.to_string())
}

fn go_on(step: LoginStep) -> Login {
    match step {
        LoginStep::Continue(login) => login,
        LoginStep::Done(result) => panic!("ended early: {:?}", result),
    }
}

fn end(step: LoginStep) -> Result<bool, Error> {
    match step {
        LoginStep::Done(result) => result,
        LoginStep::Continue(_) => panic!("did not end"),
    }
}

fn login_with(session: &mut SessionManager, check_page: &str) -> Result<bool, Error> {
    let login = session.login("MyName", "secret");
    let login = go_on(login.advance(session, LoginEvent::Page(LANDING.to_string())));
    let login = go_on(login.advance(session, LoginEvent::Page("{}".to_string())));
    end(login.advance(session, LoginEvent::Page(check_page.to_string())))
}

#[test]
fn parse_form_inputs_takes_named_values_and_lets_the_last_win() {
    assert_eq!(
        SessionManager::parse_form_inputs(LANDING, "#login_process > input"),
        Ok(vec![pair("s_url", "//www.dcinside.com/"), pair("tk", "two"), pair("user_id", "")])
    );
}

#[test]
fn parse_form_inputs_refuses_what_is_no_selector() {
    assert_eq!(
        SessionManager::parse_form_inputs(LANDING, "#login_process > > input["),
        Err(Error::Parse(Missing::Selector))
    );
}

#[test]
fn form_inputs_from_needs_both_attributes() {
    let input = |name: Option<&str>, value: Option<&str>| Element {
        attrs: vec![name.map(|n| n.to_string()), value.map(|v| v.to_string())],
        text: Vec::new(),
    };
    let inputs = vec![
        input(Some("a"), Some("1")),
        input(Some("b"), None),
        input(None, Some("3")),
        Element { attrs: vec![Some("short".to_string())], text: Vec::new() },
        input(Some("a"), Some("4")),
    ];
    assert_eq!(form_inputs_from(&inputs), vec![pair("a", "4")]);
}

#[test]
fn any_found_is_false_only_for_none() {
    assert!(!any_found(&Vec::new()));
    assert!(any_found(&vec![Element { attrs: Vec::new(), text: Vec::new() }]));
}

#[test]
fn a_new_session_has_no_identity() {
    let session = SessionManager::new();
    assert_eq!(session.user_id(), "");
    assert!(!session.is_authenticated());
}

#[test]
fn client_settings_keep_cookies_and_name_a_browser() {
    let settings = SessionManager::client_settings();
    assert!(settings.cookie_store);
    assert!(settings.accept_invalid_certs);
    assert!(settings.user_agent.starts_with("Mozilla/5.0 (Windows NT 10.0; Win64; x64)"));
    assert!(settings.user_agent.ends_with("Chrome/120.0.0.0 Safari/537.36"));
}

#[test]
fn login_asks_for_the_landing_page_first() {
    let session = SessionManager::new();
    let request = session.login("MyName", "secret").action();
    assert_eq!(request.method, Method::Get);
    assert_eq!(request.url, "https://www.dcinside.com/");
    assert_eq!(request.headers, vec![pair("Referer", "https://www.dcinside.com/")]);
    assert_eq!(request.body, Body::Empty);
}

#[test]
fn login_posts_the_form_with_the_account_in_lower_case() {
    let mut session = SessionManager::new();
    let login = session.login("MyName", "secret");
    let login = go_on(login.advance(&mut session, LoginEvent::Page(LANDING.to_string())));
    let request = login.action();
    assert_eq!(request.method, Method::Post);
    assert_eq!(request.url, "https://sign.dcinside.com/login/member_check");
    assert_eq!(
        request.headers,
        vec![
            pair("X-Requested-With", "XMLHttpRequest"),
            pair("Referer", "https://www.dcinside.com/"),
            pair("Content-Type", "application/x-www-form-urlencoded; charset=UTF-8"),
        ]
    );
    assert_eq!(
        request.body,
        Body::Form(vec![
            pair("s_url", "//www.dcinside.com/"),
            pair("tk", "two"),
            pair("user_id", "myname"),
            pair("pw", "secret"),
        ])
    );
}

#[test]
fn login_checks_the_landing_page_after_the_form() {
    let mut session = SessionManager::new();
    let login = session.login("MyName", "secret");
    let login = go_on(login.advance(&mut session, LoginEvent::Page(LANDING.to_string())));
    let login = go_on(login.advance(&mut session, LoginEvent::Page("ignored".to_string())));
    let request = login.action();
    assert_eq!(request.method, Method::Get);
    assert_eq!(request.url, "https://www.dcinside.com/");
    assert!(request.headers.is_empty());
    assert!(!session.is_authenticated());
}

#[test]
fn a_confirmed_login_stores_the_identity_in_lower_case() {
    let mut session = SessionManager::new();
    assert_eq!(login_with(&mut session, LOGGED_IN), Ok(true));
    assert_eq!(session.user_id(), "myname");
    assert!(session.is_authenticated());
    assert_eq!(session.snapshot(), session);
}

#[test]
fn an_unconfirmed_login_is_false_and_stores_nothing() {
    let mut session = SessionManager::new();
    assert_eq!(login_with(&mut session, LOGGED_OUT), Ok(false));
    assert_eq!(session.user_id(), "");
    assert!(!session.is_authenticated());
    assert_eq!(get_galleries(&session, "posting"), Err(Error::AuthRequired));
    assert!(matches!(start_cleaning(&session, None, None), Err(Error::AuthRequired)));
}

#[test]
fn an_unconfirmed_login_keeps_an_earlier_identity() {
    let mut session = SessionManager::new();
    assert_eq!(login_with(&mut session, LOGGED_IN), Ok(true));
    let login = session.login("Other", "wrong");
    let login = go_on(login.advance(&mut session, LoginEvent::Page(LANDING.to_string())));
    let login = go_on(login.advance(&mut session, LoginEvent::Page(String::new())));
    assert_eq!(end(login.advance(&mut session, LoginEvent::Page(LOGGED_OUT.to_string()))), Ok(false));
    assert_eq!(session.user_id(), "myname");
}

#[test]
fn a_failed_exchange_ends_the_login_with_the_transport_error() {
    let mut session = SessionManager::new();
    let login = session.login("MyName", "secret");
    let result = end(login.advance(&mut session, LoginEvent::Failed("timed out".to_string())));
    assert_eq!(result, Err(Error::Transport("timed out".to_string())));
    let login = session.login("MyName", "secret");
    let login = go_on(login.advance(&mut session, LoginEvent::Page(LANDING.to_string())));
    let login = go_on(login.advance(&mut session, LoginEvent::Page(String::new())));
    let result = end(login.advance(&mut session, LoginEvent::Failed("reset".to_string())));
    assert_eq!(result, Err(Error::Transport("reset".to_string())));
    assert!(!session.is_authenticated());
}
