use gallog_cleaner::captcha::{
    AntiCaptcha, CaptchaSolver, Poll, SolveAction, SolveEvent, SolveStep, Solver, Solving, Ticket,
    TwoCaptcha, POLL_INTERVAL_MS,
};
use gallog_cleaner::error::{Error, Missing, Provider, Stage};
use gallog_cleaner::http::{Body, Method, Request};
use gallog_cleaner::json::Field;

const SITE_KEY: &str = "6LcJyr4UAAAAAOy9Q_e9sDWPSHJ_aXus4UnYLfgL";
const PAGE: &str = "https://gallog.dcinside.com/me/posting";

fn reply(text: &str) -> SolveEvent {
    SolveEvent::Reply(text.as_bytes().to_vec())
}

fn go_on(step: SolveStep) -> Solving {
    match step {
        SolveStep::Continue(solving) => solving,
        SolveStep::Solved(token) => panic!("solved early: {}", token),
        SolveStep::Failed(error) => panic!("failed: {:?}", error),
    }
}

fn failure(step: SolveStep) -> Error {
    match step {
        SolveStep::Failed(error) => error,
        _ => panic!("did not fail"),
    }
}

fn token(step: SolveStep) -> String {
    match step {
        SolveStep::Solved(token) => token,
        _ => panic!("not solved"),
    }
}

fn sent(action: SolveAction) -> Request {
    match action {
        SolveAction::Send(request) => request,
        SolveAction::Sleep(_) => panic!("a pause, not a request"),
    }
}

fn whole(value: Option<i64>) -> Field {
    let json = match value {
        Some(n) => n.to_string(),
        None => "null".to_string(),
    };
    Field { number: value, text: None, json }
}

fn word(value: &str) -> Field {
    Field { number: None, text: Some(value.to_string()), json: format!("\"{}\"", value) }
}

fn absent() -> Field {
    Field { number: None, text: None, json: "null".to_string() }
}

fn polling_two_captcha() -> Solving {
    let solving = TwoCaptcha::new("KEY".to_string()).solve(SITE_KEY, PAGE);
    let solving = go_on(solving.advance(reply("{\"status\":1,\"request\":\"2122988149\"}")));
    go_on(solving.advance(SolveEvent::Elapsed))
}

fn polling_anti_captcha() -> Solving {
    let solving = AntiCaptcha::new("KEY".to_string()).solve(SITE_KEY, PAGE);
    let solving = go_on(solving.advance(reply("{\"errorId\":0,\"taskId\":7654321}")));
    go_on(solving.advance(SolveEvent::Elapsed))
}

#[test]
fn two_captcha_submits_by_address() {
    let solving = TwoCaptcha::new("KEY".to_string()).solve(SITE_KEY, PAGE);
    let request = sent(solving.action());
    assert_eq!(request.method, Method::Get);
    assert_eq!(
        request.url,
        "http://2captcha.com/in.php?key=KEY&method=userrecaptcha\
         &googlekey=6LcJyr4UAAAAAOy9Q_e9sDWPSHJ_aXus4UnYLfgL\
         &pageurl=https://gallog.dcinside.com/me/posting&json=1"
    );
    assert!(request.headers.is_empty());
    assert_eq!(request.body, Body::Empty);
}

#[test]
fn two_captcha_pauses_before_it_polls() {
    let solving = TwoCaptcha::new("KEY".to_string()).solve(SITE_KEY, PAGE);
    let solving = go_on(solving.advance(reply("{\"status\":1,\"request\":\"2122988149\"}")));
    assert_eq!(solving.action(), SolveAction::Sleep(5000));
    assert_eq!(POLL_INTERVAL_MS, 5000);
    let solving = go_on(solving.advance(SolveEvent::Elapsed));
    let request = sent(solving.action());
    assert_eq!(request.method, Method::Get);
    assert_eq!(
        request.url,
        "http://2captcha.com/res.php?key=KEY&action=get&id=2122988149&json=1"
    );
}

#[test]
fn two_captcha_refused_submission_fails_with_the_providers_message() {
    let solving = TwoCaptcha::new("KEY".to_string()).solve(SITE_KEY, PAGE);
    let error = failure(solving.advance(reply("{\"status\":0,\"request\":\"ERROR_WRONG_USER_KEY\"}")));
    assert_eq!(
        error,
        Error::CaptchaProvider {
            provider: Provider::TwoCaptcha,
            stage: Stage::Submit,
            detail: "\"ERROR_WRONG_USER_KEY\"".to_string(),
        }
    );
    assert_eq!(error.message(), "2Captcha Request Failed: \"ERROR_WRONG_USER_KEY\"");
}

#[test]
fn two_captcha_not_ready_polls_again_without_end() {
    let mut solving = polling_two_captcha();
    let mut round: u32 = 0;
    while round < 50 {
        let waiting = go_on(solving.advance(reply("{\"status\":0,\"request\":\"CAPCHA_NOT_READY\"}")));
        assert_eq!(waiting.action(), SolveAction::Sleep(5000));
        solving = go_on(waiting.advance(SolveEvent::Elapsed));
        assert_eq!(
            sent(solving.action()).url,
            "http://2captcha.com/res.php?key=KEY&action=get&id=2122988149&json=1"
        );
        round += 1;
    }
    let solved = token(solving.advance(reply("{\"status\":1,\"request\":\"03AGdBq24\"}")));
    assert_eq!(solved, "03AGdBq24");
}

#[test]
fn two_captcha_any_other_poll_answer_fails() {
    let error = failure(
        polling_two_captcha().advance(reply("{\"status\":0,\"request\":\"ERROR_CAPTCHA_UNSOLVABLE\"}")),
    );
    assert_eq!(error.message(), "2Captcha Error: \"ERROR_CAPTCHA_UNSOLVABLE\"");
    let odd = failure(polling_two_captcha().advance(reply("{\"status\":0}")));
    assert_eq!(odd.message(), "2Captcha Error: null");
}

#[test]
fn a_reply_that_is_no_json_is_a_parse_error() {
    let solving = TwoCaptcha::new("KEY".to_string()).solve(SITE_KEY, PAGE);
    assert_eq!(failure(solving.advance(reply("<html>"))), Error::Parse(Missing::Document));
    assert_eq!(
        failure(polling_anti_captcha().advance(SolveEvent::Reply(vec![0xff, 0xfe]))),
        Error::Parse(Missing::Document)
    );
}

#[test]
fn a_failed_exchange_ends_the_solve() {
    let solving = TwoCaptcha::new("KEY".to_string()).solve(SITE_KEY, PAGE);
    assert_eq!(
        failure(solving.advance(SolveEvent::Failed("dns".to_string()))),
        Error::Transport("dns".to_string())
    );
    assert_eq!(
        failure(polling_two_captcha().advance(SolveEvent::Failed("reset".to_string()))),
        Error::Transport("reset".to_string())
    );
}

#[test]
fn a_pause_cannot_answer_a_request() {
    let solving = AntiCaptcha::new("KEY".to_string()).solve(SITE_KEY, PAGE);
    assert_eq!(failure(solving.advance(SolveEvent::Elapsed)), Error::out_of_turn());
    assert_eq!(failure(polling_anti_captcha().advance(SolveEvent::Elapsed)), Error::out_of_turn());
}

#[test]
fn anti_captcha_submits_a_task_as_json() {
    let solver = AntiCaptcha::new("my\"key\\".to_string());
    let request = sent(solver.solve(SITE_KEY, "https://x.test/?a=\"b\"").action());
    assert_eq!(request.method, Method::Post);
    assert_eq!(request.url, "https://api.anti-captcha.com/createTask");
    assert_eq!(
        request.headers,
        vec![("Content-Type".to_string(), "application/json".to_string())]
    );
    let body = match request.body {
        Body::Json(body) => body,
        other => panic!("not JSON: {:?}", other),
    };
    let sent: serde_json::Value = serde_json::from_str(&body).unwrap();
    let mut task = serde_json::Map::new();
    task.insert("type".to_string(), serde_json::Value::from("RecaptchaV2TaskProxyless"));
    task.insert("websiteURL".to_string(), serde_json::Value::from("https://x.test/?a=\"b\""));
    task.insert("websiteKey".to_string(), serde_json::Value::from(SITE_KEY));
    let mut expected = serde_json::Map::new();
    expected.insert("clientKey".to_string(), serde_json::Value::from("my\"key\\"));
    expected.insert("task".to_string(), serde_json::Value::Object(task));
    assert_eq!(sent, serde_json::Value::Object(expected));
}

#[test]
fn anti_captcha_polls_with_the_task_id() {
    let solving = polling_anti_captcha();
    let request = sent(solving.action());
    assert_eq!(request.method, Method::Post);
    assert_eq!(request.url, "https://api.anti-captcha.com/getTaskResult");
    assert_eq!(request.body, Body::Json("{\"clientKey\":\"KEY\",\"taskId\":7654321}".to_string()));
}

#[test]
fn anti_captcha_error_at_submission_fails_at_once() {
    let solving = AntiCaptcha::new("KEY".to_string()).solve(SITE_KEY, PAGE);
    let error = failure(solving.advance(reply(
        "{\"errorId\":1,\"errorCode\":\"ERROR_KEY_DOES_NOT_EXIST\",\"errorDescription\":\"no such key\"}",
    )));
    assert_eq!(
        error,
        Error::CaptchaProvider {
            provider: Provider::AntiCaptcha,
            stage: Stage::Submit,
            detail: "\"no such key\"".to_string(),
        }
    );
    assert_eq!(error.message(), "AntiCaptcha Create Task Failed: \"no such key\"");
}

#[test]
fn anti_captcha_error_at_a_poll_fails_at_once() {
    let error = failure(
        polling_anti_captcha().advance(reply("{\"errorId\":16,\"errorDescription\":\"gone\"}")),
    );
    assert_eq!(error.message(), "AntiCaptcha Poll Failed: \"gone\"");
    let silent = failure(polling_anti_captcha().advance(reply("{\"status\":\"ready\"}")));
    assert_eq!(silent.message(), "AntiCaptcha Poll Failed: null");
}

#[test]
fn anti_captcha_polls_until_ready() {
    let solving = polling_anti_captcha();
    let waiting = go_on(solving.advance(reply("{\"errorId\":0,\"status\":\"processing\"}")));
    assert_eq!(waiting.action(), SolveAction::Sleep(5000));
    let solving = go_on(waiting.advance(SolveEvent::Elapsed));
    let solved = token(solving.advance(reply(
        "{\"errorId\":0,\"status\":\"ready\",\"solution\":{\"gRecaptchaResponse\":\"3AHJ_VuvY\"}}",
    )));
    assert_eq!(solved, "3AHJ_VuvY");
}

#[test]
fn anti_captcha_ready_without_a_token_is_a_parse_error() {
    let error = failure(polling_anti_captcha().advance(reply("{\"errorId\":0,\"status\":\"ready\"}")));
    assert_eq!(error, Error::Parse(Missing::Token));
    let solving = AntiCaptcha::new("KEY".to_string()).solve(SITE_KEY, PAGE);
    assert_eq!(failure(solving.advance(reply("{\"errorId\":0}"))), Error::Parse(Missing::TaskId));
}

#[test]
fn two_captcha_accepted_without_a_request_id_is_a_parse_error() {
    let solving = TwoCaptcha::new("KEY".to_string()).solve(SITE_KEY, PAGE);
    assert_eq!(
        failure(solving.advance(reply("{\"status\":1,\"request\":17}"))),
        Error::Parse(Missing::RequestId)
    );
    assert_eq!(
        failure(polling_two_captcha().advance(reply("{\"status\":1}"))),
        Error::Parse(Missing::Token)
    );
}

#[test]
fn the_configured_solver_solves_as_its_provider_does() {
    let first = Solver::TwoCaptcha(TwoCaptcha::new("K".to_string()));
    assert!(sent(first.solve("s", "u").action()).url.starts_with("http://2captcha.com/in.php?key=K&"));
    let second = Solver::AntiCaptcha(AntiCaptcha::new("K".to_string()));
    assert_eq!(sent(second.solve("s", "u").action()).url, "https://api.anti-captcha.com/createTask");
}

#[test]
fn two_captcha_answers_are_read_off_their_fields() {
    assert_eq!(
        TwoCaptcha::submitted(&whole(Some(1)), &word("77")),
        Ok(Ticket::Request("77".to_string()))
    );
    assert_eq!(TwoCaptcha::submitted(&whole(Some(1)), &absent()), Err(Error::Parse(Missing::RequestId)));
    assert!(matches!(
        TwoCaptcha::submitted(&whole(None), &word("77")),
        Err(Error::CaptchaProvider { stage: Stage::Submit, .. })
    ));
    assert_eq!(TwoCaptcha::polled(&whole(Some(1)), &word("tok")), Ok(Poll::Ready("tok".to_string())));
    assert_eq!(TwoCaptcha::polled(&whole(Some(0)), &word("CAPCHA_NOT_READY")), Ok(Poll::Pending));
    assert_eq!(TwoCaptcha::polled(&whole(None), &word("CAPCHA_NOT_READY")), Ok(Poll::Pending));
    assert_eq!(
        TwoCaptcha::polled(&whole(Some(1)), &word("CAPCHA_NOT_READY")),
        Ok(Poll::Ready("CAPCHA_NOT_READY".to_string()))
    );
    assert!(matches!(
        TwoCaptcha::polled(&whole(Some(0)), &word("capcha_not_ready")),
        Err(Error::CaptchaProvider { provider: Provider::TwoCaptcha, stage: Stage::Poll, .. })
    ));
}

#[test]
fn anti_captcha_answers_are_read_off_their_fields() {
    assert_eq!(
        AntiCaptcha::submitted(&whole(Some(0)), &absent(), &whole(Some(-5))),
        Ok(Ticket::Task(-5))
    );
    assert_eq!(
        AntiCaptcha::submitted(&whole(Some(0)), &absent(), &word("5")),
        Err(Error::Parse(Missing::TaskId))
    );
    assert!(matches!(
        AntiCaptcha::submitted(&absent(), &word("why"), &whole(Some(5))),
        Err(Error::CaptchaProvider { provider: Provider::AntiCaptcha, stage: Stage::Submit, .. })
    ));
    assert_eq!(
        AntiCaptcha::polled(&whole(Some(0)), &absent(), &word("ready"), &word("tok")),
        Ok(Poll::Ready("tok".to_string()))
    );
    assert_eq!(
        AntiCaptcha::polled(&whole(Some(0)), &absent(), &word("processing"), &word("tok")),
        Ok(Poll::Pending)
    );
    assert_eq!(
        AntiCaptcha::polled(&whole(Some(0)), &absent(), &absent(), &absent()),
        Ok(Poll::Pending)
    );
    assert!(matches!(
        AntiCaptcha::polled(&whole(Some(2)), &word("why"), &word("ready"), &word("tok")),
        Err(Error::CaptchaProvider { provider: Provider::AntiCaptcha, stage: Stage::Poll, .. })
    ));
}

#[test]
fn a_negative_task_id_is_written_with_its_sign() {
    let solving = AntiCaptcha::new("KEY".to_string()).solve(SITE_KEY, PAGE);
    let solving = go_on(solving.advance(reply("{\"errorId\":0,\"taskId\":-12}")));
    let solving = go_on(solving.advance(SolveEvent::Elapsed));
    assert_eq!(
        sent(solving.action()).body,
        Body::Json("{\"clientKey\":\"KEY\",\"taskId\":-12}".to_string())
    );
}
