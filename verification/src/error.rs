use vstd::prelude::*;

verus! {

/// The two solving services a run can be configured with.
#[derive(Clone, Copy, Debug, PartialEq, Eq, Structural)]
pub enum Provider {
    TwoCaptcha,
    AntiCaptcha,
}

/// The exchange with a solving service during which it reported a failure.
#[derive(Clone, Copy, Debug, PartialEq, Eq, Structural)]
pub enum Stage {
    Submit,
    Poll,
}

/// What a page or a reply was expected to hold and did not.
#[derive(Clone, Copy, Debug, PartialEq, Eq, Structural)]
pub enum Missing {
    /// The selector could not be read as a selector.
    Selector,
    /// The reply is not a JSON document.
    Document,
    /// The accepted submission carries no request id.
    RequestId,
    /// The accepted task carries no task id.
    TaskId,
    /// The finished task carries no token.
    Token,
}

/// Why a call failed.
#[derive(Clone, Debug, PartialEq, Eq)]
pub enum Error {
    /// The exchange with the server failed; the text is the transport's own.
    Transport(String),
    /// The page or reply lacks what was expected of it.
    Parse(Missing),
    /// The operation needs a confirmed login and there is none.
    AuthRequired,
    /// A solving service refused; `detail` is its own message as JSON text.
    CaptchaProvider { provider: Provider, stage: Stage, detail: String },
    /// Solving was asked for and no solver is configured.
    SolverNotConfigured,
}

pub enum ErrorView {
    Transport(Seq<char>),
    Parse(Missing),
    AuthRequired,
    CaptchaProvider { provider: Provider, stage: Stage, detail: Seq<char> },
    SolverNotConfigured,
}

impl View for Error {
    type V = ErrorView;

    open spec fn view(&self) -> ErrorView {
        match self {
            Error::Transport(text) => ErrorView::Transport(text@),
            Error::Parse(missing) => ErrorView::Parse(*missing),
            Error::AuthRequired => ErrorView::AuthRequired,
            Error::CaptchaProvider { provider, stage, detail } => ErrorView::CaptchaProvider {
                provider: *provider,
                stage: *stage,
                detail: detail@,
            },
            Error::SolverNotConfigured => ErrorView::SolverNotConfigured,
        }
    }
}

/// The words that open the message of a refusal by a solving service.
pub open spec fn refusal_prefix(provider: Provider, stage: Stage) -> Seq<char> {
    match (provider, stage) {
        (Provider::TwoCaptcha, Stage::Submit) => "2Captcha Request Failed: "@,
        (Provider::TwoCaptcha, Stage::Poll) => "2Captcha Error: "@,
        (Provider::AntiCaptcha, Stage::Submit) => "AntiCaptcha Create Task Failed: "@,
        (Provider::AntiCaptcha, Stage::Poll) => "AntiCaptcha Poll Failed: "@,
    }
}

pub open spec fn missing_text(missing: Missing) -> Seq<char> {
    match missing {
        Missing::Selector => "invalid selector"@,
        Missing::Document => "reply is not a JSON document"@,
        Missing::RequestId => "reply holds no request id"@,
        Missing::TaskId => "reply holds no task id"@,
        Missing::Token => "reply holds no token"@,
    }
}

/// The message shown to the user for an error.
pub open spec fn error_text(error: ErrorView) -> Seq<char> {
    match error {
        ErrorView::Transport(text) => text,
        ErrorView::Parse(missing) => missing_text(missing),
        ErrorView::AuthRequired => "로그인이 필요합니다"@,
        ErrorView::CaptchaProvider { provider, stage, detail } => refusal_prefix(provider, stage)
            + detail,
        ErrorView::SolverNotConfigured => "Captcha solver required but not configured"@,
    }
}

/// The error for an event that cannot be the outcome of the action that was
/// pending when it came.
pub open spec fn out_of_turn() -> ErrorView {
    ErrorView::Transport("the event does not answer the pending action"@)
}

impl Error {
    /// The error for an event that cannot be the outcome of the action that
    /// was pending when it came.
    pub fn out_of_turn() -> (r: Error)
        ensures
            r@ == out_of_turn(),
    {
        Error::Transport(String::from_str("the event does not answer the pending action"))
    }

    /// The message shown to the user for this error.
    pub fn message(&self) -> (r: String)
        ensures
            r@ == error_text(self@),
    {
        match self {
            Error::Transport(text) => text.clone(),
            Error::Parse(missing) => {
                let text = match missing {
                    Missing::Selector => "invalid selector",
                    Missing::Document => "reply is not a JSON document",
                    Missing::RequestId => "reply holds no request id",
                    Missing::TaskId => "reply holds no task id",
                    Missing::Token => "reply holds no token",
                };
                String::from_str(text)
            },
            Error::AuthRequired => String::from_str("로그인이 필요합니다"),
            Error::CaptchaProvider { provider, stage, detail } => {
                let prefix = match (provider, stage) {
                    (Provider::TwoCaptcha, Stage::Submit) => "2Captcha Request Failed: ",
                    (Provider::TwoCaptcha, Stage::Poll) => "2Captcha Error: ",
                    (Provider::AntiCaptcha, Stage::Submit) => "AntiCaptcha Create Task Failed: ",
                    (Provider::AntiCaptcha, Stage::Poll) => "AntiCaptcha Poll Failed: ",
                };
                let mut text = String::from_str(prefix);
                text.append(detail.as_str());
                text
            },
            Error::SolverNotConfigured => String::from_str(
                "Captcha solver required but not configured",
            ),
        }
    }
}

} // verus!
