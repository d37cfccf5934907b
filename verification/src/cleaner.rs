use vstd::prelude::*;
use crate::auth::SessionManager;
use crate::captcha::Solver;
use crate::error::{out_of_turn, Error, ErrorView};
use crate::http::{push_header, Body, BodyView, Method, Request, RequestView};
use crate::pairs::{get, lookup};
use crate::site::{
    profile_address, profile_url, CHALLENGE_COOKIE, GALLOG_HOST, GALLOG_ORIGIN, GALLOG_URL,
    SITE_KEY, USER_AGENT,
};
use crate::text::{contains, has_substring};

verus! {

/// How the server answered one deletion request.
#[derive(Clone, Debug, PartialEq, Eq)]
pub enum DeletionOutcome {
    /// The item is gone.
    Success,
    /// The server wants a solved challenge before it deletes.
    CaptchaRequired,
    /// Anything else; the text is the server's answer.
    Failure(String),
}

pub enum OutcomeView {
    Success,
    CaptchaRequired,
    Failure(Seq<char>),
}

impl View for DeletionOutcome {
    type V = OutcomeView;

    open spec fn view(&self) -> OutcomeView {
        match self {
            DeletionOutcome::Success => OutcomeView::Success,
            DeletionOutcome::CaptchaRequired => OutcomeView::CaptchaRequired,
            DeletionOutcome::Failure(body) => OutcomeView::Failure(body@),
        }
    }
}

/// The text whose presence in an answer means the item was deleted.
pub open spec fn success_marker() -> Seq<char> {
    "success"@
}

/// The text whose presence in an answer means a challenge is wanted.
pub open spec fn captcha_marker() -> Seq<char> {
    "captcha"@
}

/// The outcome that an answer stands for. The success marker wins over the
/// challenge marker when both are present.
pub open spec fn classified(body: Seq<char>) -> OutcomeView {
    if has_substring(body, success_marker()) {
        OutcomeView::Success
    } else if has_substring(body, captcha_marker()) {
        OutcomeView::CaptchaRequired
    } else {
        OutcomeView::Failure(body)
    }
}

/// Reads the outcome off the body of the server's answer to a deletion.
pub fn classify_response(body: String) -> (r: DeletionOutcome)
    ensures
        r@ == classified(body@),
{
    if contains(body.as_str(), "success") {
        DeletionOutcome::Success
    } else if contains(body.as_str(), "captcha") {
        DeletionOutcome::CaptchaRequired
    } else {
        DeletionOutcome::Failure(body)
    }
}

/// The address that deletions of a user's items are posted to.
pub open spec fn delete_url(user_id: Seq<char>) -> Seq<char> {
    GALLOG_URL@ + user_id + "/ajax/log_list_ajax/delete"@
}

/// The challenge token that a profile page hands out: the value of the
/// first challenge cookie, or the empty text where there is none.
pub open spec fn challenge_token(cookies: Seq<(Seq<char>, Seq<char>)>) -> Seq<char> {
    match lookup(cookies, CHALLENGE_COOKIE@) {
        Some(value) => value,
        None => Seq::empty(),
    }
}

/// The fields of a deletion: the challenge token, the item, a fixed service
/// code, and the solved challenge where there is one.
pub open spec fn delete_form(
    token: Seq<char>,
    post_no: Seq<char>,
    solved: Option<Seq<char>>,
) -> Seq<(Seq<char>, Seq<char>)> {
    let fields = seq![("ci_t"@, token), ("no"@, post_no), ("service_code"@, "undefined"@)];
    match solved {
        Some(answer) => fields.push(("g-recaptcha-response"@, answer)),
        None => fields,
    }
}

/// The headers of a deletion: those of a request that a script on the
/// profile page `referer` sends.
pub open spec fn delete_headers(referer: Seq<char>) -> Seq<(Seq<char>, Seq<char>)> {
    seq![
        ("Accept"@, "application/json, text/javascript, */*; q=0.01"@),
        ("Accept-Encoding"@, "gzip, deflate, br"@),
        ("Accept-Language"@, "ko-KR,ko;q=0.9"@),
        ("Connection"@, "keep-alive"@),
        ("Content-Type"@, "application/x-www-form-urlencoded; charset=UTF-8"@),
        ("Host"@, GALLOG_HOST@),
        ("Origin"@, GALLOG_ORIGIN@),
        ("Referer"@, referer),
        ("Sec-Fetch-Dest"@, "empty"@),
        ("Sec-Fetch-Mode"@, "cors"@),
        ("Sec-Fetch-Site"@, "same-origin"@),
        ("X-Requested-With"@, "XMLHttpRequest"@),
    ]
}

pub open spec fn visit_headers() -> Seq<(Seq<char>, Seq<char>)> {
    seq![("User-Agent"@, USER_AGENT@)]
}

pub enum DeletePhaseView {
    /// Waiting for the profile page that hands out the challenge token.
    Visiting,
    /// Waiting for the solver; the token is kept.
    Solving(Seq<char>),
    /// Waiting for the server's answer to the deletion.
    Posting(Seq<char>, Option<Seq<char>>),
}

pub struct DeletionView {
    pub user_id: Seq<char>,
    pub post_no: Seq<char>,
    pub post_type: Seq<char>,
    pub solve_captcha: bool,
    pub has_solver: bool,
    pub phase: DeletePhaseView,
}

pub enum DeleteActionView {
    Send(RequestView),
    Solve { site_key: Seq<char>, url: Seq<char> },
}

pub enum DeleteEventView {
    Response { cookies: Seq<(Seq<char>, Seq<char>)>, body: Seq<char> },
    Solved(Seq<char>),
    Failed(ErrorView),
}

pub enum DeleteStepView {
    Continue(DeletionView),
    Done(Result<OutcomeView, ErrorView>),
}

/// An attempt at its start.
pub open spec fn deletion_begun(
    user_id: Seq<char>,
    has_solver: bool,
    post_no: Seq<char>,
    post_type: Seq<char>,
    solve_captcha: bool,
) -> DeletionView {
    DeletionView {
        user_id,
        post_no,
        post_type,
        solve_captcha,
        has_solver,
        phase: DeletePhaseView::Visiting,
    }
}

/// The action an attempt waits for.
pub open spec fn delete_action(attempt: DeletionView) -> DeleteActionView {
    let page = profile_url(attempt.user_id, attempt.post_type);
    match attempt.phase {
        DeletePhaseView::Visiting => DeleteActionView::Send(
            RequestView {
                method: Method::Get,
                url: page,
                headers: visit_headers(),
                body: BodyView::Empty,
            },
        ),
        DeletePhaseView::Solving(_) => DeleteActionView::Solve { site_key: SITE_KEY@, url: page },
        DeletePhaseView::Posting(token, solved) => DeleteActionView::Send(
            RequestView {
                method: Method::Post,
                url: delete_url(attempt.user_id),
                headers: delete_headers(page),
                body: BodyView::Form(delete_form(token, attempt.post_no, solved)),
            },
        ),
    }
}

/// The attempt after the action it waited for has ended with `event`. A
/// failure of the action ends the attempt with that failure; so does an
/// attempt that is to carry a solved challenge where no solver is
/// configured, once the profile page has come.
pub open spec fn delete_advance(attempt: DeletionView, event: DeleteEventView) -> DeleteStepView {
    match event {
        DeleteEventView::Failed(error) => DeleteStepView::Done(Err(error)),
        DeleteEventView::Response { cookies, body } => match attempt.phase {
            DeletePhaseView::Visiting => {
                let token = challenge_token(cookies);
                if !attempt.solve_captcha {
                    DeleteStepView::Continue(
                        DeletionView { phase: DeletePhaseView::Posting(token, None), ..attempt },
                    )
                } else if attempt.has_solver {
                    DeleteStepView::Continue(
                        DeletionView { phase: DeletePhaseView::Solving(token), ..attempt },
                    )
                } else {
                    DeleteStepView::Done(Err(ErrorView::SolverNotConfigured))
                }
            },
            DeletePhaseView::Solving(_) => DeleteStepView::Done(Err(out_of_turn())),
            DeletePhaseView::Posting(_, _) => DeleteStepView::Done(Ok(classified(body))),
        },
        DeleteEventView::Solved(answer) => match attempt.phase {
            DeletePhaseView::Solving(token) => DeleteStepView::Continue(
                DeletionView { phase: DeletePhaseView::Posting(token, Some(answer)), ..attempt },
            ),
            _ => DeleteStepView::Done(Err(out_of_turn())),
        },
    }
}

/// What the driver of an attempt is to do next.
#[derive(Clone, Debug, PartialEq, Eq)]
pub enum DeleteAction {
    /// Send the request with the session's client; hand back the cookies
    /// that the answer sets and its body as text.
    Send(Request),
    /// Have the configured solver solve the challenge of this page.
    Solve { site_key: String, url: String },
}

impl View for DeleteAction {
    type V = DeleteActionView;

    open spec fn view(&self) -> DeleteActionView {
        match self {
            DeleteAction::Send(request) => DeleteActionView::Send(request@),
            DeleteAction::Solve { site_key, url } => DeleteActionView::Solve {
                site_key: site_key@,
                url: url@,
            },
        }
    }
}

/// How the action that an attempt waited for has ended.
#[derive(Clone, Debug, PartialEq, Eq)]
pub enum DeleteEvent {
    /// The answer to a request: the cookies it sets, in the order of its
    /// headers, and its body as text.
    Response { cookies: Vec<(String, String)>, body: String },
    /// The token that solves the challenge.
    Solved(String),
    /// The action failed.
    Failed(Error),
}

impl View for DeleteEvent {
    type V = DeleteEventView;

    open spec fn view(&self) -> DeleteEventView {
        match self {
            DeleteEvent::Response { cookies, body } => DeleteEventView::Response {
                cookies: cookies.deep_view(),
                body: body@,
            },
            DeleteEvent::Solved(answer) => DeleteEventView::Solved(answer@),
            DeleteEvent::Failed(error) => DeleteEventView::Failed(error@),
        }
    }
}

enum DeletePhase {
    Visiting,
    Solving(String),
    Posting(String, Option<String>),
}

/// One attempt to delete one item.
pub struct Deletion {
    user_id: String,
    post_no: String,
    post_type: String,
    solve_captcha: bool,
    has_solver: bool,
    phase: DeletePhase,
}

impl View for Deletion {
    type V = DeletionView;

    closed spec fn view(&self) -> DeletionView {
        DeletionView {
            user_id: self.user_id@,
            post_no: self.post_no@,
            post_type: self.post_type@,
            solve_captcha: self.solve_captcha,
            has_solver: self.has_solver,
            phase: match self.phase {
                DeletePhase::Visiting => DeletePhaseView::Visiting,
                DeletePhase::Solving(token) => DeletePhaseView::Solving(token@),
                DeletePhase::Posting(token, solved) => DeletePhaseView::Posting(
                    token@,
                    solved.deep_view(),
                ),
            },
        }
    }
}

/// An attempt after one event: it goes on, or it has ended.
pub enum DeleteStep {
    Continue(Deletion),
    Done(Result<DeletionOutcome, Error>),
}

impl View for DeleteStep {
    type V = DeleteStepView;

    open spec fn view(&self) -> DeleteStepView {
        match self {
            DeleteStep::Continue(attempt) => DeleteStepView::Continue(attempt@),
            DeleteStep::Done(Ok(outcome)) => DeleteStepView::Done(Ok(outcome@)),
            DeleteStep::Done(Err(error)) => DeleteStepView::Done(Err(error@)),
        }
    }
}

/// The challenge token that a profile page hands out.
pub fn challenge_of(cookies: &Vec<(String, String)>) -> (token: String)
    ensures
        token@ == challenge_token(cookies.deep_view()),
{
    match get(cookies, CHALLENGE_COOKIE) {
        Some(value) => value.clone(),
        None => String::new(),
    }
}

fn delete_headers_for(referer: &str) -> (headers: Vec<(String, String)>)
    ensures
        headers.deep_view() == delete_headers(referer@),
{
    let mut headers: Vec<(String, String)> = Vec::new();
    assert(headers.deep_view() =~= Seq::empty());
    push_header(&mut headers, "Accept", "application/json, text/javascript, */*; q=0.01");
    push_header(&mut headers, "Accept-Encoding", "gzip, deflate, br");
    push_header(&mut headers, "Accept-Language", "ko-KR,ko;q=0.9");
    push_header(&mut headers, "Connection", "keep-alive");
    push_header(
        &mut headers,
        "Content-Type",
        "application/x-www-form-urlencoded; charset=UTF-8",
    );
    push_header(&mut headers, "Host", GALLOG_HOST);
    push_header(&mut headers, "Origin", GALLOG_ORIGIN);
    push_header(&mut headers, "Referer", referer);
    push_header(&mut headers, "Sec-Fetch-Dest", "empty");
    push_header(&mut headers, "Sec-Fetch-Mode", "cors");
    push_header(&mut headers, "Sec-Fetch-Site", "same-origin");
    push_header(&mut headers, "X-Requested-With", "XMLHttpRequest");
    assert(headers.deep_view() =~= delete_headers(referer@));
    headers
}

fn delete_form_for(token: &str, post_no: &str, solved: &Option<String>) -> (fields: Vec<
    (String, String),
>)
    ensures
        fields.deep_view() == delete_form(token@, post_no@, solved.deep_view()),
{
    let mut fields: Vec<(String, String)> = Vec::new();
    assert(fields.deep_view() =~= Seq::empty());
    push_header(&mut fields, "ci_t", token);
    push_header(&mut fields, "no", post_no);
    push_header(&mut fields, "service_code", "undefined");
    assert(fields.deep_view() =~= seq![
        ("ci_t"@, token@),
        ("no"@, post_no@),
        ("service_code"@, "undefined"@),
    ]);
    match solved {
        Some(answer) => {
            push_header(&mut fields, "g-recaptcha-response", answer.as_str());
        },
        None => {},
    }
    fields
}

impl Deletion {
    /// The action this attempt waits for.
    pub fn action(&self) -> (action: DeleteAction)
        ensures
            action@ == delete_action(self@),
    {
        let page = profile_address(self.user_id.as_str(), self.post_type.as_str());
        match &self.phase {
            DeletePhase::Visiting => {
                let mut headers: Vec<(String, String)> = Vec::new();
                assert(headers.deep_view() =~= Seq::empty());
                push_header(&mut headers, "User-Agent", USER_AGENT);
                assert(headers.deep_view() =~= visit_headers());
                DeleteAction::Send(
                    Request { method: Method::Get, url: page, headers, body: Body::Empty },
                )
            },
            DeletePhase::Solving(_) => DeleteAction::Solve {
                site_key: String::from_str(SITE_KEY),
                url: page,
            },
            DeletePhase::Posting(token, solved) => {
                let mut url = String::from_str(GALLOG_URL);
                url.append(self.user_id.as_str());
                url.append("/ajax/log_list_ajax/delete");
                DeleteAction::Send(
                    Request {
                        method: Method::Post,
                        url,
                        headers: delete_headers_for(page.as_str()),
                        body: Body::Form(
                            delete_form_for(token.as_str(), self.post_no.as_str(), solved),
                        ),
                    },
                )
            },
        }
    }

    /// The attempt after the action it waited for has ended with `event`.
    pub fn advance(self, event: DeleteEvent) -> (step: DeleteStep)
        ensures
            step@ == delete_advance(self@, event@),
    {
        match event {
            DeleteEvent::Failed(error) => DeleteStep::Done(Err(error)),
            DeleteEvent::Response { cookies, body } => match self.phase {
                DeletePhase::Visiting => {
                    let token = challenge_of(&cookies);
                    if !self.solve_captcha {
                        DeleteStep::Continue(
                            Deletion { phase: DeletePhase::Posting(token, None), ..self },
                        )
                    } else if self.has_solver {
                        DeleteStep::Continue(
                            Deletion { phase: DeletePhase::Solving(token), ..self },
                        )
                    } else {
                        DeleteStep::Done(Err(Error::SolverNotConfigured))
                    }
                },
                DeletePhase::Solving(_) => DeleteStep::Done(Err(Error::out_of_turn())),
                DeletePhase::Posting(_, _) => DeleteStep::Done(Ok(classify_response(body))),
            },
            DeleteEvent::Solved(answer) => match self.phase {
                DeletePhase::Solving(token) => DeleteStep::Continue(
                    Deletion { phase: DeletePhase::Posting(token, Some(answer)), ..self },
                ),
                _ => DeleteStep::Done(Err(Error::out_of_turn())),
            },
        }
    }
}

/// What deletes: a session and, where one is configured, a solver.
pub struct Cleaner {
    session: SessionManager,
    captcha_solver: Option<Solver>,
}

impl Cleaner {
    /// The identity of the session that the cleaner works for.
    pub closed spec fn identity(&self) -> Seq<char> {
        self.session.identity()
    }

    /// Whether a solver is configured.
    pub closed spec fn solver_configured(&self) -> bool {
        self.captcha_solver is Some
    }

    pub fn new(session: SessionManager, captcha_solver: Option<Solver>) -> (cleaner: Cleaner)
        ensures
            cleaner.identity() == session.identity(),
            cleaner.solver_configured() == (captcha_solver is Some),
            cleaner.solver() == captcha_solver,
    {
        Cleaner { session, captcha_solver }
    }

    /// Whether a solver is configured.
    pub fn has_solver(&self) -> (r: bool)
        ensures
            r == self.solver_configured(),
    {
        self.captcha_solver.is_some()
    }

    /// The configured solver.
    pub closed spec fn solver(&self) -> Option<Solver> {
        self.captcha_solver
    }

    /// The configured solver, for the driver to solve with.
    pub fn captcha_solver(&self) -> (r: Option<&Solver>)
        ensures
            r is Some == self.solver_configured(),
            r matches Some(solver) ==> self.solver() == Some(*solver),
    {
        self.captcha_solver.as_ref()
    }

    /// Begins the attempt to delete one item of one kind, with a solved
    /// challenge where `solve_captcha` says so.
    pub fn delete_post(&self, post_no: &str, post_type: &str, solve_captcha: bool) -> (attempt:
        Deletion)
        ensures
            attempt@ == deletion_begun(
                self.identity(),
                self.solver_configured(),
                post_no@,
                post_type@,
                solve_captcha,
            ),
    {
        Deletion {
            user_id: String::from_str(self.session.user_id()),
            post_no: String::from_str(post_no),
            post_type: String::from_str(post_type),
            solve_captcha,
            has_solver: self.captcha_solver.is_some(),
            phase: DeletePhase::Visiting,
        }
    }
}

} // verus!
