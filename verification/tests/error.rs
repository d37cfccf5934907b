use gallog_cleaner::error::{Error, Missing, Provider, Stage};

#[test]
fn transport_errors_keep_their_own_text() {
    assert_eq!(Error::Transport("connection reset".to_string()).message(), "connection reset");
}

#[test]
fn auth_required_has_the_login_message() {
    assert_eq!(Error::AuthRequired.message(), "로그인이 필요합니다");
}

#[test]
fn solver_not_configured_has_its_message() {
    assert_eq!(
        Error::SolverNotConfigured.message(),
        "Captcha solver required but not configured"
    );
}

#[test]
fn provider_errors_name_the_provider_and_carry_its_message() {
    let refusal = |provider, stage| Error::CaptchaProvider {
        provider,
        stage,
        detail: "\"ERROR_ZERO_BALANCE\"".to_string(),
    };
    assert_eq!(
        refusal(Provider::TwoCaptcha, Stage::Submit).message(),
        "2Captcha Request Failed: \"ERROR_ZERO_BALANCE\""
    );
    assert_eq!(
        refusal(Provider::TwoCaptcha, Stage::Poll).message(),
        "2Captcha Error: \"ERROR_ZERO_BALANCE\""
    );
    assert_eq!(
        refusal(Provider::AntiCaptcha, Stage::Submit).message(),
        "AntiCaptcha Create Task Failed: \"ERROR_ZERO_BALANCE\""
    );
    assert_eq!(
        refusal(Provider::AntiCaptcha, Stage::Poll).message(),
        "AntiCaptcha Poll Failed: \"ERROR_ZERO_BALANCE\""
    );
}

#[test]
fn parse_errors_say_what_is_missing() {
    assert_eq!(Error::Parse(Missing::Selector).message(), "invalid selector");
    assert_eq!(Error::Parse(Missing::Document).message(), "reply is not a JSON document");
    assert_eq!(Error::Parse(Missing::RequestId).message(), "reply holds no request id");
    assert_eq!(Error::Parse(Missing::TaskId).message(), "reply holds no task id");
    assert_eq!(Error::Parse(Missing::Token).message(), "reply holds no token");
}

#[test]
fn out_of_turn_is_a_transport_error() {
    assert!(matches!(Error::out_of_turn(), Error::Transport(_)));
}
