use vstd::prelude::*;
use crate::error::{out_of_turn, Error, ErrorView, Missing, Provider, Stage};
use crate::http::{push_header, Body, BodyView, Method, Request, RequestView};
use crate::json::{json_fields, json_string, quote, read_fields, Field};
use crate::text::{push_signed, signed_decimal, str_eq};

verus! {

/// Pause before every poll of a solving service, in milliseconds.
pub const POLL_INTERVAL_MS: u64 = 5000;

/// What the first provider answers to a poll while the solution is not
/// ready.
pub const NOT_READY: &'static str = "CAPCHA_NOT_READY";

/// What the second provider's status says once the solution is ready.
pub const READY: &'static str = "ready";

/// The kind of task that the second provider is asked to create.
pub const TASK_TYPE: &'static str = "RecaptchaV2TaskProxyless";

/// What a solving service knows a submitted challenge by.
#[derive(Clone, Debug, PartialEq, Eq)]
pub enum Ticket {
    /// The first provider's request id.
    Request(String),
    /// The second provider's task id.
    Task(i64),
}

pub enum TicketView {
    Request(Seq<char>),
    Task(int),
}

impl View for Ticket {
    type V = TicketView;

    open spec fn view(&self) -> TicketView {
        match self {
            Ticket::Request(id) => TicketView::Request(id@),
            Ticket::Task(id) => TicketView::Task(*id as int),
        }
    }
}

/// What a solving service answers to a poll that it does not refuse.
#[derive(Clone, Debug, PartialEq, Eq)]
pub enum Poll {
    /// The solution is not ready: ask again.
    Pending,
    /// The token that solves the challenge.
    Ready(String),
}

pub enum PollView {
    Pending,
    Ready(Seq<char>),
}

impl View for Poll {
    type V = PollView;

    open spec fn view(&self) -> PollView {
        match self {
            Poll::Pending => PollView::Pending,
            Poll::Ready(token) => PollView::Ready(token@),
        }
    }
}

/// The views of a ticket or an error.
pub open spec fn ticket_result(r: Result<Ticket, Error>) -> Result<TicketView, ErrorView> {
    match r {
        Ok(ticket) => Ok(ticket@),
        Err(error) => Err(error@),
    }
}

/// The views of a poll's answer or an error.
pub open spec fn poll_result(r: Result<Poll, Error>) -> Result<PollView, ErrorView> {
    match r {
        Ok(poll) => Ok(poll@),
        Err(error) => Err(error@),
    }
}

/// A refusal by a solving service, with the service's own message.
pub open spec fn refusal(provider: Provider, stage: Stage, detail: Seq<char>) -> ErrorView {
    ErrorView::CaptchaProvider { provider, stage, detail }
}

// The first provider: requests by address, answers with `status` and `request`.

pub open spec fn two_captcha_submit_url(
    api_key: Seq<char>,
    site_key: Seq<char>,
    url: Seq<char>,
) -> Seq<char> {
    "http://2captcha.com/in.php?key="@ + api_key + "&method=userrecaptcha&googlekey="@ + site_key
        + "&pageurl="@ + url + "&json=1"@
}

pub open spec fn two_captcha_poll_url(api_key: Seq<char>, request_id: Seq<char>) -> Seq<char> {
    "http://2captcha.com/res.php?key="@ + api_key + "&action=get&id="@ + request_id + "&json=1"@
}

/// The places of a reply that the first provider's answers are read at.
pub open spec fn two_captcha_paths() -> Seq<Seq<Seq<char>>> {
    seq![seq!["status"@], seq!["request"@]]
}

/// What the first provider's answer to a submission means: any status but 1
/// is a refusal that carries the `request` field; with status 1 the
/// `request` field is the request id.
pub open spec fn two_captcha_submitted(
    status: (Option<i64>, Option<Seq<char>>, Seq<char>),
    request: (Option<i64>, Option<Seq<char>>, Seq<char>),
) -> Result<TicketView, ErrorView> {
    if status.0 != Some(1i64) {
        Err(refusal(Provider::TwoCaptcha, Stage::Submit, request.2))
    } else {
        match request.1 {
            Some(id) => Ok(TicketView::Request(id)),
            None => Err(ErrorView::Parse(Missing::RequestId)),
        }
    }
}

/// What the first provider's answer to a poll means: with status 1 the
/// `request` field is the token; otherwise the not-ready word asks for
/// another poll, and anything else is a refusal that carries the field.
pub open spec fn two_captcha_polled(
    status: (Option<i64>, Option<Seq<char>>, Seq<char>),
    request: (Option<i64>, Option<Seq<char>>, Seq<char>),
) -> Result<PollView, ErrorView> {
    if status.0 == Some(1i64) {
        match request.1 {
            Some(token) => Ok(PollView::Ready(token)),
            None => Err(ErrorView::Parse(Missing::Token)),
        }
    } else if request.1 == Some(NOT_READY@) {
        Ok(PollView::Pending)
    } else {
        Err(refusal(Provider::TwoCaptcha, Stage::Poll, request.2))
    }
}

// The second provider: requests and answers are JSON documents.

pub open spec fn anti_captcha_submit_body(
    api_key: Seq<char>,
    site_key: Seq<char>,
    url: Seq<char>,
) -> Seq<char> {
    "{\"clientKey\":"@ + json_string(api_key) + ",\"task\":{\"type\":"@ + json_string(TASK_TYPE@)
        + ",\"websiteURL\":"@ + json_string(url) + ",\"websiteKey\":"@ + json_string(site_key)
        + "}}"@
}

pub open spec fn anti_captcha_poll_body(api_key: Seq<char>, task_id: int) -> Seq<char> {
    "{\"clientKey\":"@ + json_string(api_key) + ",\"taskId\":"@ + signed_decimal(task_id) + "}"@
}

/// The places of a reply that the second provider's answers to a
/// submission are read at.
pub open spec fn anti_captcha_submit_paths() -> Seq<Seq<Seq<char>>> {
    seq![seq!["errorId"@], seq!["errorDescription"@], seq!["taskId"@]]
}

/// The places of a reply that the second provider's answers to a poll are
/// read at.
pub open spec fn anti_captcha_poll_paths() -> Seq<Seq<Seq<char>>> {
    seq![
        seq!["errorId"@],
        seq!["errorDescription"@],
        seq!["status"@],
        seq!["solution"@, "gRecaptchaResponse"@],
    ]
}

/// The second provider refuses with an error id other than 0; an answer
/// without an error id counts as a refusal too.
pub open spec fn anti_captcha_refuses(error_id: (Option<i64>, Option<Seq<char>>, Seq<char>))
    -> bool {
    error_id.0 != Some(0i64)
}

/// What the second provider's answer to a submission means: a refusal
/// carries the error's description; otherwise `taskId` is the task id.
pub open spec fn anti_captcha_submitted(
    error_id: (Option<i64>, Option<Seq<char>>, Seq<char>),
    description: (Option<i64>, Option<Seq<char>>, Seq<char>),
    task_id: (Option<i64>, Option<Seq<char>>, Seq<char>),
) -> Result<TicketView, ErrorView> {
    if anti_captcha_refuses(error_id) {
        Err(refusal(Provider::AntiCaptcha, Stage::Submit, description.2))
    } else {
        match task_id.0 {
            Some(id) => Ok(TicketView::Task(id as int)),
            None => Err(ErrorView::Parse(Missing::TaskId)),
        }
    }
}

/// What the second provider's answer to a poll means: a refusal carries the
/// error's description; the ready status comes with the token; any other
/// status asks for another poll.
pub open spec fn anti_captcha_polled(
    error_id: (Option<i64>, Option<Seq<char>>, Seq<char>),
    description: (Option<i64>, Option<Seq<char>>, Seq<char>),
    status: (Option<i64>, Option<Seq<char>>, Seq<char>),
    token: (Option<i64>, Option<Seq<char>>, Seq<char>),
) -> Result<PollView, ErrorView> {
    if anti_captcha_refuses(error_id) {
        Err(refusal(Provider::AntiCaptcha, Stage::Poll, description.2))
    } else if status.1 == Some(READY@) {
        match token.1 {
            Some(token) => Ok(PollView::Ready(token)),
            None => Err(ErrorView::Parse(Missing::Token)),
        }
    } else {
        Ok(PollView::Pending)
    }
}

/// The phase of one solve: each waits for the outcome of one action.
pub enum SolvePhaseView {
    /// The challenge is being submitted.
    Submitting,
    /// Pausing before the next poll.
    Waiting(TicketView),
    /// The service is being asked for the solution.
    Polling(TicketView),
}

pub struct SolvingView {
    pub provider: Provider,
    pub api_key: Seq<char>,
    pub site_key: Seq<char>,
    pub url: Seq<char>,
    pub phase: SolvePhaseView,
}

pub open spec fn ticket_fits(provider: Provider, ticket: TicketView) -> bool {
    match provider {
        Provider::TwoCaptcha => ticket is Request,
        Provider::AntiCaptcha => ticket is Task,
    }
}

impl SolvingView {
    /// The ticket of a solve is one of its own provider's.
    pub open spec fn valid(self) -> bool {
        match self.phase {
            SolvePhaseView::Submitting => true,
            SolvePhaseView::Waiting(ticket) => ticket_fits(self.provider, ticket),
            SolvePhaseView::Polling(ticket) => ticket_fits(self.provider, ticket),
        }
    }
}

pub enum SolveActionView {
    Send(RequestView),
    Sleep(nat),
}

pub enum SolveEventView {
    Reply(Seq<u8>),
    Elapsed,
    Failed(Seq<char>),
}

pub enum SolveStepView {
    Continue(SolvingView),
    Solved(Seq<char>),
    Failed(ErrorView),
}

/// A solve at its start.
pub open spec fn solve_begun(
    provider: Provider,
    api_key: Seq<char>,
    site_key: Seq<char>,
    url: Seq<char>,
) -> SolvingView {
    SolvingView { provider, api_key, site_key, url, phase: SolvePhaseView::Submitting }
}

pub open spec fn json_headers() -> Seq<(Seq<char>, Seq<char>)> {
    seq![("Content-Type"@, "application/json"@)]
}

/// The request that submits the challenge.
pub open spec fn submit_request(solving: SolvingView) -> RequestView {
    match solving.provider {
        Provider::TwoCaptcha => RequestView {
            method: Method::Get,
            url: two_captcha_submit_url(solving.api_key, solving.site_key, solving.url),
            headers: Seq::empty(),
            body: BodyView::Empty,
        },
        Provider::AntiCaptcha => RequestView {
            method: Method::Post,
            url: "https://api.anti-captcha.com/createTask"@,
            headers: json_headers(),
            body: BodyView::Json(
                anti_captcha_submit_body(solving.api_key, solving.site_key, solving.url),
            ),
        },
    }
}

/// The request that asks for the solution.
pub open spec fn poll_request(solving: SolvingView, ticket: TicketView) -> RequestView {
    match ticket {
        TicketView::Request(id) => RequestView {
            method: Method::Get,
            url: two_captcha_poll_url(solving.api_key, id),
            headers: Seq::empty(),
            body: BodyView::Empty,
        },
        TicketView::Task(id) => RequestView {
            method: Method::Post,
            url: "https://api.anti-captcha.com/getTaskResult"@,
            headers: json_headers(),
            body: BodyView::Json(anti_captcha_poll_body(solving.api_key, id)),
        },
    }
}

/// The action a solve waits for.
pub open spec fn solve_action(solving: SolvingView) -> SolveActionView {
    match solving.phase {
        SolvePhaseView::Submitting => SolveActionView::Send(submit_request(solving)),
        SolvePhaseView::Waiting(_) => SolveActionView::Sleep(POLL_INTERVAL_MS as nat),
        SolvePhaseView::Polling(ticket) => SolveActionView::Send(poll_request(solving, ticket)),
    }
}

/// What a provider's answer to a submission means.
pub open spec fn read_submission(provider: Provider, reply: Seq<u8>) -> Result<
    TicketView,
    ErrorView,
> {
    match provider {
        Provider::TwoCaptcha => match json_fields(reply, two_captcha_paths()) {
            Some(fields) => two_captcha_submitted(fields[0], fields[1]),
            None => Err(ErrorView::Parse(Missing::Document)),
        },
        Provider::AntiCaptcha => match json_fields(reply, anti_captcha_submit_paths()) {
            Some(fields) => anti_captcha_submitted(fields[0], fields[1], fields[2]),
            None => Err(ErrorView::Parse(Missing::Document)),
        },
    }
}

/// What a provider's answer to a poll means.
pub open spec fn read_poll(provider: Provider, reply: Seq<u8>) -> Result<PollView, ErrorView> {
    match provider {
        Provider::TwoCaptcha => match json_fields(reply, two_captcha_paths()) {
            Some(fields) => two_captcha_polled(fields[0], fields[1]),
            None => Err(ErrorView::Parse(Missing::Document)),
        },
        Provider::AntiCaptcha => match json_fields(reply, anti_captcha_poll_paths()) {
            Some(fields) => anti_captcha_polled(fields[0], fields[1], fields[2], fields[3]),
            None => Err(ErrorView::Parse(Missing::Document)),
        },
    }
}

/// The solve after the action it waited for has ended with `event`.
pub open spec fn solve_advance(solving: SolvingView, event: SolveEventView) -> SolveStepView {
    match solving.phase {
        SolvePhaseView::Submitting => match event {
            SolveEventView::Reply(reply) => match read_submission(solving.provider, reply) {
                Ok(ticket) => SolveStepView::Continue(
                    SolvingView { phase: SolvePhaseView::Waiting(ticket), ..solving },
                ),
                Err(error) => SolveStepView::Failed(error),
            },
            SolveEventView::Failed(text) => SolveStepView::Failed(ErrorView::Transport(text)),
            SolveEventView::Elapsed => SolveStepView::Failed(out_of_turn()),
        },
        SolvePhaseView::Waiting(ticket) => match event {
            SolveEventView::Failed(text) => SolveStepView::Failed(ErrorView::Transport(text)),
            _ => SolveStepView::Continue(
                SolvingView { phase: SolvePhaseView::Polling(ticket), ..solving },
            ),
        },
        SolvePhaseView::Polling(ticket) => match event {
            SolveEventView::Reply(reply) => match read_poll(solving.provider, reply) {
                Ok(PollView::Ready(token)) => SolveStepView::Solved(token),
                Ok(PollView::Pending) => SolveStepView::Continue(
                    SolvingView { phase: SolvePhaseView::Waiting(ticket), ..solving },
                ),
                Err(error) => SolveStepView::Failed(error),
            },
            SolveEventView::Failed(text) => SolveStepView::Failed(ErrorView::Transport(text)),
            SolveEventView::Elapsed => SolveStepView::Failed(out_of_turn()),
        },
    }
}

fn key_path(key: &str) -> (r: Vec<String>)
    ensures
        r.deep_view() == seq![key@],
{
    let mut path: Vec<String> = Vec::new();
    path.push(String::from_str(key));
    assert(path.deep_view() =~= seq![key@]);
    path
}

fn key_path2(first: &str, second: &str) -> (r: Vec<String>)
    ensures
        r.deep_view() == seq![first@, second@],
{
    let mut path: Vec<String> = Vec::new();
    path.push(String::from_str(first));
    path.push(String::from_str(second));
    assert(path.deep_view() =~= seq![first@, second@]);
    path
}

fn refused(provider: Provider, stage: Stage, detail: &Field) -> (r: Error)
    ensures
        r@ == refusal(provider, stage, detail.deep_view().2),
{
    Error::CaptchaProvider { provider, stage, detail: detail.json.clone() }
}

fn text_is(field: &Field, word: &str) -> (r: bool)
    ensures
        r == (field.deep_view().1 == Some(word@)),
{
    match &field.text {
        Some(text) => str_eq(text.as_str(), word),
        None => false,
    }
}

fn number_is(field: &Field, number: i64) -> (r: bool)
    ensures
        r == (field.deep_view().0 == Some(number)),
{
    match field.number {
        Some(found) => found == number,
        None => false,
    }
}

/// The first provider.
#[derive(Clone, Debug, PartialEq, Eq)]
pub struct TwoCaptcha {
    api_key: String,
}

/// The second provider.
#[derive(Clone, Debug, PartialEq, Eq)]
pub struct AntiCaptcha {
    api_key: String,
}

/// A solving service: given the key a challenge is registered under and the
/// address of the page that shows it, it yields a token, after a time that
/// has no bound of its own.
pub trait CaptchaSolver {
    spec fn provider(&self) -> Provider;

    spec fn api_key(&self) -> Seq<char>;

    /// Begins one solve.
    fn solve(&self, site_key: &str, url: &str) -> (solving: Solving)
        ensures
            solving@ == solve_begun(self.provider(), self.api_key(), site_key@, url@),
    ;
}

impl TwoCaptcha {
    pub fn new(api_key: String) -> (r: TwoCaptcha)
        ensures
            r.api_key() == api_key@,
            r.provider() == Provider::TwoCaptcha,
    {
        TwoCaptcha { api_key }
    }

    /// What the answer to a submission means, given its `status` and
    /// `request` fields.
    pub fn submitted(status: &Field, request: &Field) -> (r: Result<Ticket, Error>)
        ensures
            ticket_result(r) == two_captcha_submitted(status.deep_view(), request.deep_view()),
    {
        if !number_is(status, 1) {
            Err(refused(Provider::TwoCaptcha, Stage::Submit, request))
        } else {
            match &request.text {
                Some(id) => Ok(Ticket::Request(id.clone())),
                None => Err(Error::Parse(Missing::RequestId)),
            }
        }
    }

    /// What the answer to a poll means, given its `status` and `request`
    /// fields.
    pub fn polled(status: &Field, request: &Field) -> (r: Result<Poll, Error>)
        ensures
            poll_result(r) == two_captcha_polled(status.deep_view(), request.deep_view()),
    {
        if number_is(status, 1) {
            match &request.text {
                Some(token) => Ok(Poll::Ready(token.clone())),
                None => Err(Error::Parse(Missing::Token)),
            }
        } else if text_is(request, NOT_READY) {
            Ok(Poll::Pending)
        } else {
            Err(refused(Provider::TwoCaptcha, Stage::Poll, request))
        }
    }
}

impl CaptchaSolver for TwoCaptcha {
    open spec fn provider(&self) -> Provider {
        Provider::TwoCaptcha
    }

    closed spec fn api_key(&self) -> Seq<char> {
        self.api_key@
    }

    fn solve(&self, site_key: &str, url: &str) -> (solving: Solving) {
        Solving::begin(Provider::TwoCaptcha, self.api_key.as_str(), site_key, url)
    }
}

impl AntiCaptcha {
    pub fn new(api_key: String) -> (r: AntiCaptcha)
        ensures
            r.api_key() == api_key@,
            r.provider() == Provider::AntiCaptcha,
    {
        AntiCaptcha { api_key }
    }

    /// What the answer to a submission means, given its `errorId`,
    /// `errorDescription` and `taskId` fields.
    pub fn submitted(error_id: &Field, description: &Field, task_id: &Field) -> (r: Result<
        Ticket,
        Error,
    >)
        ensures
            ticket_result(r) == anti_captcha_submitted(
                error_id.deep_view(),
                description.deep_view(),
                task_id.deep_view(),
            ),
    {
        if !number_is(error_id, 0) {
            Err(refused(Provider::AntiCaptcha, Stage::Submit, description))
        } else {
            match task_id.number {
                Some(id) => Ok(Ticket::Task(id)),
                None => Err(Error::Parse(Missing::TaskId)),
            }
        }
    }

    /// What the answer to a poll means, given its `errorId`,
    /// `errorDescription` and `status` fields and the token's field.
    pub fn polled(error_id: &Field, description: &Field, status: &Field, token: &Field) -> (r:
        Result<Poll, Error>)
        ensures
            poll_result(r) == anti_captcha_polled(
                error_id.deep_view(),
                description.deep_view(),
                status.deep_view(),
                token.deep_view(),
            ),
    {
        if !number_is(error_id, 0) {
            Err(refused(Provider::AntiCaptcha, Stage::Poll, description))
        } else if text_is(status, READY) {
            match &token.text {
                Some(token) => Ok(Poll::Ready(token.clone())),
                None => Err(Error::Parse(Missing::Token)),
            }
        } else {
            Ok(Poll::Pending)
        }
    }
}

impl CaptchaSolver for AntiCaptcha {
    open spec fn provider(&self) -> Provider {
        Provider::AntiCaptcha
    }

    closed spec fn api_key(&self) -> Seq<char> {
        self.api_key@
    }

    fn solve(&self, site_key: &str, url: &str) -> (solving: Solving) {
        Solving::begin(Provider::AntiCaptcha, self.api_key.as_str(), site_key, url)
    }
}

/// The solver that a run is configured with.
#[derive(Clone, Debug, PartialEq, Eq)]
pub enum Solver {
    TwoCaptcha(TwoCaptcha),
    AntiCaptcha(AntiCaptcha),
}

impl CaptchaSolver for Solver {
    open spec fn provider(&self) -> Provider {
        match self {
            Solver::TwoCaptcha(solver) => solver.provider(),
            Solver::AntiCaptcha(solver) => solver.provider(),
        }
    }

    open spec fn api_key(&self) -> Seq<char> {
        match self {
            Solver::TwoCaptcha(solver) => solver.api_key(),
            Solver::AntiCaptcha(solver) => solver.api_key(),
        }
    }

    fn solve(&self, site_key: &str, url: &str) -> (solving: Solving) {
        match self {
            Solver::TwoCaptcha(solver) => solver.solve(site_key, url),
            Solver::AntiCaptcha(solver) => solver.solve(site_key, url),
        }
    }
}

enum SolvePhase {
    Submitting,
    Waiting(Ticket),
    Polling(Ticket),
}

/// What the driver of a solve is to do next.
#[derive(Clone, Debug, PartialEq, Eq)]
pub enum SolveAction {
    /// Send the request and hand back the body of the answer.
    Send(Request),
    /// Wait this many milliseconds.
    Sleep(u64),
}

impl View for SolveAction {
    type V = SolveActionView;

    open spec fn view(&self) -> SolveActionView {
        match self {
            SolveAction::Send(request) => SolveActionView::Send(request@),
            SolveAction::Sleep(millis) => SolveActionView::Sleep(*millis as nat),
        }
    }
}

/// How the action that a solve waited for has ended.
#[derive(Clone, Debug, PartialEq, Eq)]
pub enum SolveEvent {
    /// The body of the service's answer.
    Reply(Vec<u8>),
    /// The pause is over.
    Elapsed,
    /// The exchange failed; the text is the transport's own.
    Failed(String),
}

impl View for SolveEvent {
    type V = SolveEventView;

    open spec fn view(&self) -> SolveEventView {
        match self {
            SolveEvent::Reply(body) => SolveEventView::Reply(body@),
            SolveEvent::Elapsed => SolveEventView::Elapsed,
            SolveEvent::Failed(text) => SolveEventView::Failed(text@),
        }
    }
}

/// One solve of a challenge by a solving service.
pub struct Solving {
    provider: Provider,
    api_key: String,
    site_key: String,
    url: String,
    phase: SolvePhase,
}

impl View for Solving {
    type V = SolvingView;

    closed spec fn view(&self) -> SolvingView {
        SolvingView {
            provider: self.provider,
            api_key: self.api_key@,
            site_key: self.site_key@,
            url: self.url@,
            phase: match self.phase {
                SolvePhase::Submitting => SolvePhaseView::Submitting,
                SolvePhase::Waiting(ticket) => SolvePhaseView::Waiting(ticket@),
                SolvePhase::Polling(ticket) => SolvePhaseView::Polling(ticket@),
            },
        }
    }
}

/// A solve after one event: it goes on, or it has the token, or it failed.
pub enum SolveStep {
    Continue(Solving),
    Solved(String),
    Failed(Error),
}

impl View for SolveStep {
    type V = SolveStepView;

    open spec fn view(&self) -> SolveStepView {
        match self {
            SolveStep::Continue(solving) => SolveStepView::Continue(solving@),
            SolveStep::Solved(token) => SolveStepView::Solved(token@),
            SolveStep::Failed(error) => SolveStepView::Failed(error@),
        }
    }
}

fn json_request(url: &str, body: String) -> (r: Request)
    ensures
        r@ == (RequestView {
            method: Method::Post,
            url: url@,
            headers: json_headers(),
            body: BodyView::Json(body@),
        }),
{
    let mut headers: Vec<(String, String)> = Vec::new();
    assert(headers.deep_view() =~= Seq::empty());
    push_header(&mut headers, "Content-Type", "application/json");
    assert(headers.deep_view() =~= json_headers());
    Request { method: Method::Post, url: String::from_str(url), headers, body: Body::Json(body) }
}

fn plain_request(url: String) -> (r: Request)
    ensures
        r@ == (RequestView {
            method: Method::Get,
            url: url@,
            headers: Seq::empty(),
            body: BodyView::Empty,
        }),
{
    let r = Request { method: Method::Get, url, headers: Vec::new(), body: Body::Empty };
    assert(r.headers.deep_view() =~= Seq::empty());
    r
}

impl Solving {
    #[verifier::type_invariant]
    spec fn well_formed(self) -> bool {
        self@.valid()
    }

    fn begin(provider: Provider, api_key: &str, site_key: &str, url: &str) -> (solving: Solving)
        ensures
            solving@ == solve_begun(provider, api_key@, site_key@, url@),
    {
        Solving {
            provider,
            api_key: String::from_str(api_key),
            site_key: String::from_str(site_key),
            url: String::from_str(url),
            phase: SolvePhase::Submitting,
        }
    }

    fn submit(&self) -> (r: Request)
        ensures
            r@ == submit_request(self@),
    {
        match self.provider {
            Provider::TwoCaptcha => {
                let mut url = String::from_str("http://2captcha.com/in.php?key=");
                url.append(self.api_key.as_str());
                url.append("&method=userrecaptcha&googlekey=");
                url.append(self.site_key.as_str());
                url.append("&pageurl=");
                url.append(self.url.as_str());
                url.append("&json=1");
                plain_request(url)
            },
            Provider::AntiCaptcha => {
                let mut body = String::from_str("{\"clientKey\":");
                body.append(quote(self.api_key.as_str()).as_str());
                body.append(",\"task\":{\"type\":");
                body.append(quote(TASK_TYPE).as_str());
                body.append(",\"websiteURL\":");
                body.append(quote(self.url.as_str()).as_str());
                body.append(",\"websiteKey\":");
                body.append(quote(self.site_key.as_str()).as_str());
                body.append("}}");
                json_request("https://api.anti-captcha.com/createTask", body)
            },
        }
    }

    fn poll(&self, ticket: &Ticket) -> (r: Request)
        ensures
            r@ == poll_request(self@, ticket@),
    {
        match ticket {
            Ticket::Request(id) => {
                let mut url = String::from_str("http://2captcha.com/res.php?key=");
                url.append(self.api_key.as_str());
                url.append("&action=get&id=");
                url.append(id.as_str());
                url.append("&json=1");
                plain_request(url)
            },
            Ticket::Task(id) => {
                let mut body = String::from_str("{\"clientKey\":");
                body.append(quote(self.api_key.as_str()).as_str());
                body.append(",\"taskId\":");
                push_signed(&mut body, *id);
                body.append("}");
                json_request("https://api.anti-captcha.com/getTaskResult", body)
            },
        }
    }

    /// The action this solve waits for.
    pub fn action(&self) -> (action: SolveAction)
        ensures
            self@.valid(),
            action@ == solve_action(self@),
    {
        proof {
            use_type_invariant(self);
        }
        match &self.phase {
            SolvePhase::Submitting => SolveAction::Send(self.submit()),
            SolvePhase::Waiting(_) => SolveAction::Sleep(POLL_INTERVAL_MS),
            SolvePhase::Polling(ticket) => SolveAction::Send(self.poll(ticket)),
        }
    }

    fn submission(provider: Provider, reply: &[u8]) -> (r: Result<Ticket, Error>)
        ensures
            ticket_result(r) == read_submission(provider, reply@),
            r matches Ok(ticket) ==> ticket_fits(provider, ticket@),
    {
        match provider {
            Provider::TwoCaptcha => {
                let mut paths: Vec<Vec<String>> = Vec::new();
                paths.push(key_path("status"));
                paths.push(key_path("request"));
                assert(paths.deep_view() =~= two_captcha_paths());
                match read_fields(reply, &paths) {
                    Some(fields) => TwoCaptcha::submitted(&fields[0], &fields[1]),
                    None => Err(Error::Parse(Missing::Document)),
                }
            },
            Provider::AntiCaptcha => {
                let mut paths: Vec<Vec<String>> = Vec::new();
                paths.push(key_path("errorId"));
                paths.push(key_path("errorDescription"));
                paths.push(key_path("taskId"));
                assert(paths.deep_view() =~= anti_captcha_submit_paths());
                match read_fields(reply, &paths) {
                    Some(fields) => AntiCaptcha::submitted(&fields[0], &fields[1], &fields[2]),
                    None => Err(Error::Parse(Missing::Document)),
                }
            },
        }
    }

    fn answer(provider: Provider, reply: &[u8]) -> (r: Result<Poll, Error>)
        ensures
            poll_result(r) == read_poll(provider, reply@),
    {
        match provider {
            Provider::TwoCaptcha => {
                let mut paths: Vec<Vec<String>> = Vec::new();
                paths.push(key_path("status"));
                paths.push(key_path("request"));
                assert(paths.deep_view() =~= two_captcha_paths());
                match read_fields(reply, &paths) {
                    Some(fields) => TwoCaptcha::polled(&fields[0], &fields[1]),
                    None => Err(Error::Parse(Missing::Document)),
                }
            },
            Provider::AntiCaptcha => {
                let mut paths: Vec<Vec<String>> = Vec::new();
                paths.push(key_path("errorId"));
                paths.push(key_path("errorDescription"));
                paths.push(key_path("status"));
                paths.push(key_path2("solution", "gRecaptchaResponse"));
                assert(paths.deep_view() =~= anti_captcha_poll_paths());
                match read_fields(reply, &paths) {
                    Some(fields) => AntiCaptcha::polled(
                        &fields[0],
                        &fields[1],
                        &fields[2],
                        &fields[3],
                    ),
                    None => Err(Error::Parse(Missing::Document)),
                }
            },
        }
    }

    /// The solve after the action it waited for has ended with `event`.
    pub fn advance(self, event: SolveEvent) -> (step: SolveStep)
        ensures
            step@ == solve_advance(self@, event@),
    {
        proof {
            use_type_invariant(&self);
        }
        match self.phase {
            SolvePhase::Submitting => match event {
                SolveEvent::Reply(reply) => match Solving::submission(
                    self.provider,
                    reply.as_slice(),
                ) {
                    Ok(ticket) => SolveStep::Continue(
                        Solving { phase: SolvePhase::Waiting(ticket), ..self },
                    ),
                    Err(error) => SolveStep::Failed(error),
                },
                SolveEvent::Failed(text) => SolveStep::Failed(Error::Transport(text)),
                SolveEvent::Elapsed => SolveStep::Failed(Error::out_of_turn()),
            },
            SolvePhase::Waiting(ticket) => match event {
                SolveEvent::Failed(text) => SolveStep::Failed(Error::Transport(text)),
                _ => SolveStep::Continue(Solving { phase: SolvePhase::Polling(ticket), ..self }),
            },
            SolvePhase::Polling(ticket) => match event {
                SolveEvent::Reply(reply) => match Solving::answer(self.provider, reply.as_slice()) {
                    Ok(Poll::Ready(token)) => SolveStep::Solved(token),
                    Ok(Poll::Pending) => SolveStep::Continue(
                        Solving { phase: SolvePhase::Waiting(ticket), ..self },
                    ),
                    Err(error) => SolveStep::Failed(error),
                },
                SolveEvent::Failed(text) => SolveStep::Failed(Error::Transport(text)),
                SolveEvent::Elapsed => SolveStep::Failed(Error::out_of_turn()),
            },
        }
    }
}

} // verus!
