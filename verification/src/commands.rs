use vstd::prelude::*;
use crate::auth::SessionManager;
use crate::captcha::{AntiCaptcha, CaptchaSolver, Solver, TwoCaptcha};
use crate::cleaner::{Cleaner, DeletionOutcome, OutcomeView};
use crate::error::{error_text, out_of_turn, Error, ErrorView, Provider};
use crate::http::{Request, RequestView};
use crate::listing::{page_request, Scraper};
use crate::site::profile_url;
use crate::text::{decimal, push_decimal, str_eq};

verus! {

/// Discovery asks for at most this many listing pages, whatever the server
/// answers: a guard against pages that never come back empty.
pub const MAX_PAGES: u32 = 100;

/// Pause after every deletion attempt, in milliseconds.
pub const ATTEMPT_DELAY_MS: u64 = 500;

/// A progress notification for the user interface.
#[derive(Clone, Debug, PartialEq, Eq)]
pub struct ProgressEvent {
    pub current: u64,
    pub total: u64,
    pub message: String,
}

pub struct ProgressView {
    pub current: nat,
    pub total: nat,
    pub message: Seq<char>,
}

impl View for ProgressEvent {
    type V = ProgressView;

    open spec fn view(&self) -> ProgressView {
        ProgressView {
            current: self.current as nat,
            total: self.total as nat,
            message: self.message@,
        }
    }
}

/// What a finished run reports.
#[derive(Clone, Debug, PartialEq, Eq)]
pub struct RunSummary {
    pub attempted: u64,
    pub succeeded: u64,
    pub failed: u64,
    pub final_message: String,
}

pub struct SummaryView {
    pub attempted: nat,
    pub succeeded: nat,
    pub failed: nat,
    pub final_message: Seq<char>,
}

impl View for RunSummary {
    type V = SummaryView;

    open spec fn view(&self) -> SummaryView {
        SummaryView {
            attempted: self.attempted as nat,
            succeeded: self.succeeded as nat,
            failed: self.failed as nat,
            final_message: self.final_message@,
        }
    }
}

pub open spec fn collecting_message() -> Seq<char> {
    "게시물 목록 수집 중..."@
}

pub open spec fn nothing_message() -> Seq<char> {
    "삭제할 게시물이 없습니다"@
}

pub open spec fn found_message(total: nat) -> Seq<char> {
    "총 "@ + decimal(total) + "개 발견, 삭제 시작..."@
}

pub open spec fn progress_message(current: nat, total: nat) -> Seq<char> {
    "삭제 중... ("@ + decimal(current) + "/"@ + decimal(total) + ")"@
}

pub open spec fn final_message(succeeded: nat, failed: nat) -> Seq<char> {
    "완료! 삭제: "@ + decimal(succeeded) + "개, 실패: "@ + decimal(failed) + "개"@
}

fn found_text(total: u64) -> (r: String)
    ensures
        r@ == found_message(total as nat),
{
    let mut text = String::from_str("총 ");
    push_decimal(&mut text, total);
    text.append("개 발견, 삭제 시작...");
    text
}

fn progress_text(current: u64, total: u64) -> (r: String)
    ensures
        r@ == progress_message(current as nat, total as nat),
{
    let mut text = String::from_str("삭제 중... (");
    push_decimal(&mut text, current);
    text.append("/");
    push_decimal(&mut text, total);
    text.append(")");
    text
}

fn final_text(succeeded: u64, failed: u64) -> (r: String)
    ensures
        r@ == final_message(succeeded as nat, failed as nat),
{
    let mut text = String::from_str("완료! 삭제: ");
    push_decimal(&mut text, succeeded);
    text.append("개, 실패: ");
    push_decimal(&mut text, failed);
    text.append("개");
    text
}

/// What one attempt counts as.
#[derive(Clone, Copy, Debug, PartialEq, Eq, Structural)]
pub enum Verdict {
    Deleted,
    Challenged,
    Failed,
}

/// The running counts of a run, and whether the next attempt is to carry a
/// solved challenge.
pub struct Tally {
    pub succeeded: nat,
    pub failed: nat,
    pub solve_next: bool,
}

pub open spec fn empty_tally() -> Tally {
    Tally { succeeded: 0, failed: 0, solve_next: false }
}

/// The tally after one more attempt. A deletion clears the escalation; a
/// challenge sets it where a solver is configured and counts as a failure;
/// any other failure leaves it as it was.
pub open spec fn record(tally: Tally, verdict: Verdict, has_solver: bool) -> Tally {
    match verdict {
        Verdict::Deleted => Tally { succeeded: tally.succeeded + 1, solve_next: false, ..tally },
        Verdict::Challenged => Tally {
            failed: tally.failed + 1,
            solve_next: has_solver || tally.solve_next,
            ..tally
        },
        Verdict::Failed => Tally { failed: tally.failed + 1, ..tally },
    }
}

/// The tally after a sequence of attempts, the first attempt first.
pub open spec fn tally_of(verdicts: Seq<Verdict>, has_solver: bool) -> Tally
    decreases verdicts.len(),
{
    if verdicts.len() == 0 {
        empty_tally()
    } else {
        record(tally_of(verdicts.drop_last(), has_solver), verdicts.last(), has_solver)
    }
}

/// How many of the attempts deleted their item.
pub open spec fn deletions(verdicts: Seq<Verdict>) -> nat
    decreases verdicts.len(),
{
    if verdicts.len() == 0 {
        0
    } else {
        deletions(verdicts.drop_last()) + if verdicts.last() == Verdict::Deleted {
            1nat
        } else {
            0nat
        }
    }
}

/// Where a run stands: each phase waits for the outcome of one action.
#[derive(Clone, Copy, Debug, PartialEq, Eq, Structural)]
pub enum Phase {
    /// Telling the user that discovery begins.
    Announcing,
    /// Waiting for a listing page.
    Collecting,
    /// Telling the user that nothing was found.
    ReportingNone,
    /// Telling the user how many items were found.
    ReportingTotal,
    /// Waiting for the outcome of a deletion attempt.
    Deleting,
    /// Telling the user how far the run has come.
    Reporting,
    /// Pausing between attempts.
    Pausing,
    /// Telling the user the final counts.
    ReportingFinal,
}

pub struct RunView {
    pub phase: Phase,
    pub has_solver: bool,
    /// The listing page asked for, counted from one.
    pub page: nat,
    /// The identifiers discovered so far, in the order the pages gave them.
    pub posts: Seq<Seq<char>>,
    /// How many attempts have ended.
    pub done: nat,
    pub tally: Tally,
}

impl RunView {
    pub open spec fn total(self) -> nat {
        self.posts.len()
    }

    /// What holds of every run, from its start to its end.
    pub open spec fn valid(self) -> bool {
        &&& 1 <= self.page <= MAX_PAGES
        &&& self.done <= self.total()
        &&& self.tally.succeeded + self.tally.failed == self.done
        &&& self.tally.solve_next ==> self.has_solver && self.done > 0
        &&& match self.phase {
            Phase::Announcing => self.total() == 0 && self.page == 1,
            Phase::Collecting => self.done == 0,
            Phase::ReportingNone => self.total() == 0,
            Phase::ReportingTotal => self.done == 0 && self.total() > 0,
            Phase::Deleting => self.done < self.total(),
            Phase::Reporting => self.done >= 1,
            Phase::Pausing => self.done >= 1,
            Phase::ReportingFinal => self.done == self.total() && self.total() > 0,
        }
    }

    pub open spec fn summary(self) -> SummaryView {
        SummaryView {
            attempted: self.done,
            succeeded: self.tally.succeeded,
            failed: self.tally.failed,
            final_message: if self.total() == 0 {
                nothing_message()
            } else {
                final_message(self.tally.succeeded, self.tally.failed)
            },
        }
    }
}

pub enum RunActionView {
    Emit(ProgressView),
    Fetch(nat),
    Delete { post_no: Seq<char>, solve_captcha: bool },
    Sleep(nat),
}

pub enum RunEventView {
    Completed,
    Page(Seq<Seq<char>>),
    Deleted(OutcomeView),
    Failed(ErrorView),
}

pub enum RunStepView {
    Continue(RunView),
    Done(Result<SummaryView, ErrorView>),
}

/// A run at its start.
pub open spec fn started(has_solver: bool) -> RunView {
    RunView {
        phase: Phase::Announcing,
        has_solver,
        page: 1,
        posts: Seq::empty(),
        done: 0,
        tally: empty_tally(),
    }
}

/// The action a run waits for.
pub open spec fn action_spec(run: RunView) -> RunActionView {
    match run.phase {
        Phase::Announcing => RunActionView::Emit(
            ProgressView { current: 0, total: 0, message: collecting_message() },
        ),
        Phase::Collecting => RunActionView::Fetch(run.page),
        Phase::ReportingNone => RunActionView::Emit(
            ProgressView { current: 0, total: 0, message: nothing_message() },
        ),
        Phase::ReportingTotal => RunActionView::Emit(
            ProgressView { current: 0, total: run.total(), message: found_message(run.total()) },
        ),
        Phase::Deleting => RunActionView::Delete {
            post_no: run.posts[run.done as int],
            solve_captcha: run.tally.solve_next,
        },
        Phase::Reporting => RunActionView::Emit(
            ProgressView {
                current: run.done,
                total: run.total(),
                message: progress_message(run.done, run.total()),
            },
        ),
        Phase::Pausing => RunActionView::Sleep(ATTEMPT_DELAY_MS as nat),
        Phase::ReportingFinal => RunActionView::Emit(
            ProgressView {
                current: run.total(),
                total: run.total(),
                message: final_message(run.tally.succeeded, run.tally.failed),
            },
        ),
    }
}

/// What an attempt counts as, by the event that ended it. An outcome other
/// than deletion or challenge, an error, and an event that is no outcome of
/// an attempt all count as a failure.
pub open spec fn verdict_of(event: RunEventView) -> Verdict {
    match event {
        RunEventView::Deleted(OutcomeView::Success) => Verdict::Deleted,
        RunEventView::Deleted(OutcomeView::CaptchaRequired) => Verdict::Challenged,
        _ => Verdict::Failed,
    }
}

/// The run once discovery has ended with the identifiers in `run.posts`.
pub open spec fn discovered(run: RunView) -> RunView {
    RunView {
        phase: if run.posts.len() == 0 {
            Phase::ReportingNone
        } else {
            Phase::ReportingTotal
        },
        ..run
    }
}

/// The run after the action it waited for has ended with `event`.
pub open spec fn advance_spec(run: RunView, event: RunEventView) -> RunStepView {
    match run.phase {
        Phase::Announcing => RunStepView::Continue(RunView { phase: Phase::Collecting, ..run }),
        Phase::Collecting => match event {
            RunEventView::Page(ids) => {
                let grown = RunView { posts: run.posts + ids, ..run };
                if ids.len() == 0 || run.page >= MAX_PAGES {
                    RunStepView::Continue(discovered(grown))
                } else {
                    RunStepView::Continue(RunView { page: run.page + 1, ..grown })
                }
            },
            RunEventView::Failed(error) => RunStepView::Done(Err(error)),
            _ => RunStepView::Done(Err(out_of_turn())),
        },
        Phase::ReportingNone => RunStepView::Done(Ok(run.summary())),
        Phase::ReportingTotal => RunStepView::Continue(RunView { phase: Phase::Deleting, ..run }),
        Phase::Deleting => RunStepView::Continue(
            RunView {
                phase: Phase::Reporting,
                done: run.done + 1,
                tally: record(run.tally, verdict_of(event), run.has_solver),
                ..run
            },
        ),
        Phase::Reporting => RunStepView::Continue(RunView { phase: Phase::Pausing, ..run }),
        Phase::Pausing => RunStepView::Continue(
            RunView {
                phase: if run.done < run.total() {
                    Phase::Deleting
                } else {
                    Phase::ReportingFinal
                },
                ..run
            },
        ),
        Phase::ReportingFinal => RunStepView::Done(Ok(run.summary())),
    }
}

/// What the driver of a run is to do next.
#[derive(Clone, Debug, PartialEq, Eq)]
pub enum RunAction {
    /// Notify the user interface; a failure to deliver is not reported.
    Emit(ProgressEvent),
    /// Fetch the listing page of this number and extract its identifiers.
    Fetch(u32),
    /// Attempt to delete one item.
    Delete { post_no: String, solve_captcha: bool },
    /// Wait this many milliseconds.
    Sleep(u64),
}

impl View for RunAction {
    type V = RunActionView;

    open spec fn view(&self) -> RunActionView {
        match self {
            RunAction::Emit(progress) => RunActionView::Emit(progress@),
            RunAction::Fetch(page) => RunActionView::Fetch(*page as nat),
            RunAction::Delete { post_no, solve_captcha } => RunActionView::Delete {
                post_no: post_no@,
                solve_captcha: *solve_captcha,
            },
            RunAction::Sleep(millis) => RunActionView::Sleep(*millis as nat),
        }
    }
}

/// How the action that a run waited for has ended.
#[derive(Clone, Debug, PartialEq, Eq)]
pub enum RunEvent {
    /// A notification was handed over, or a pause is over.
    Completed,
    /// The identifiers found on the listing page, in page order.
    Page(Vec<String>),
    /// The server's answer to a deletion attempt.
    Deleted(DeletionOutcome),
    /// The action failed.
    Failed(Error),
}

impl View for RunEvent {
    type V = RunEventView;

    open spec fn view(&self) -> RunEventView {
        match self {
            RunEvent::Completed => RunEventView::Completed,
            RunEvent::Page(ids) => RunEventView::Page(ids.deep_view()),
            RunEvent::Deleted(outcome) => RunEventView::Deleted(outcome@),
            RunEvent::Failed(error) => RunEventView::Failed(error@),
        }
    }
}

/// One deletion run over everything that discovery finds.
pub struct CleaningRun {
    phase: Phase,
    has_solver: bool,
    page: u32,
    posts: Vec<String>,
    done: usize,
    succeeded: u64,
    failed: u64,
    solve_next: bool,
}

impl View for CleaningRun {
    type V = RunView;

    closed spec fn view(&self) -> RunView {
        RunView {
            phase: self.phase,
            has_solver: self.has_solver,
            page: self.page as nat,
            posts: self.posts.deep_view(),
            done: self.done as nat,
            tally: Tally {
                succeeded: self.succeeded as nat,
                failed: self.failed as nat,
                solve_next: self.solve_next,
            },
        }
    }
}

/// A run after one event: either it goes on, or it has ended.
pub enum RunStep {
    Continue(CleaningRun),
    Done(Result<RunSummary, Error>),
}

impl View for RunStep {
    type V = RunStepView;

    open spec fn view(&self) -> RunStepView {
        match self {
            RunStep::Continue(run) => RunStepView::Continue(run@),
            RunStep::Done(Ok(summary)) => RunStepView::Done(Ok(summary@)),
            RunStep::Done(Err(error)) => RunStepView::Done(Err(error@)),
        }
    }
}

proof fn lemma_deep_view_concat(a: Seq<String>, b: Seq<String>)
    ensures
        Seq::new((a + b).len(), |i: int| (a + b)[i].deep_view()) == Seq::new(
            a.len(),
            |i: int| a[i].deep_view(),
        ) + Seq::new(b.len(), |i: int| b[i].deep_view()),
{
    assert(Seq::new((a + b).len(), |i: int| (a + b)[i].deep_view()) =~= Seq::new(
        a.len(),
        |i: int| a[i].deep_view(),
    ) + Seq::new(b.len(), |i: int| b[i].deep_view()));
}

impl CleaningRun {
    #[verifier::type_invariant]
    spec fn well_formed(self) -> bool {
        self@.valid()
    }

    /// A run at its start.
    pub fn begin(has_solver: bool) -> (run: CleaningRun)
        ensures
            run@ == started(has_solver),
    {
        let run = CleaningRun {
            phase: Phase::Announcing,
            has_solver,
            page: 1,
            posts: Vec::new(),
            done: 0,
            succeeded: 0,
            failed: 0,
            solve_next: false,
        };
        assert(run@.posts =~= Seq::<Seq<char>>::empty());
        run
    }

    /// The action this run waits for.
    pub fn action(&self) -> (action: RunAction)
        ensures
            self@.valid(),
            action@ == action_spec(self@),
    {
        proof {
            use_type_invariant(self);
        }
        let total: u64 = self.posts.len() as u64;
        match self.phase {
            Phase::Announcing => RunAction::Emit(
                ProgressEvent {
                    current: 0,
                    total: 0,
                    message: String::from_str("게시물 목록 수집 중..."),
                },
            ),
            Phase::Collecting => RunAction::Fetch(self.page),
            Phase::ReportingNone => RunAction::Emit(
                ProgressEvent {
                    current: 0,
                    total: 0,
                    message: String::from_str("삭제할 게시물이 없습니다"),
                },
            ),
            Phase::ReportingTotal => RunAction::Emit(
                ProgressEvent { current: 0, total, message: found_text(total) },
            ),
            Phase::Deleting => RunAction::Delete {
                post_no: self.posts[self.done].clone(),
                solve_captcha: self.solve_next,
            },
            Phase::Reporting => RunAction::Emit(
                ProgressEvent {
                    current: self.done as u64,
                    total,
                    message: progress_text(self.done as u64, total),
                },
            ),
            Phase::Pausing => RunAction::Sleep(ATTEMPT_DELAY_MS),
            Phase::ReportingFinal => RunAction::Emit(
                ProgressEvent {
                    current: total,
                    total,
                    message: final_text(self.succeeded, self.failed),
                },
            ),
        }
    }

    fn summary(&self) -> (r: RunSummary)
        ensures
            r@ == self@.summary(),
    {
        proof {
            use_type_invariant(self);
        }
        RunSummary {
            attempted: self.done as u64,
            succeeded: self.succeeded,
            failed: self.failed,
            final_message: if self.posts.len() == 0 {
                String::from_str("삭제할 게시물이 없습니다")
            } else {
                final_text(self.succeeded, self.failed)
            },
        }
    }

    /// The run after the action it waited for has ended with `event`.
    pub fn advance(self, event: RunEvent) -> (step: RunStep)
        ensures
            step@ == advance_spec(self@, event@),
    {
        proof {
            use_type_invariant(&self);
        }
        match self.phase {
            Phase::Announcing => RunStep::Continue(
                CleaningRun { phase: Phase::Collecting, ..self },
            ),
            Phase::Collecting => match event {
                RunEvent::Page(ids) => {
                    let last = ids.len() == 0 || self.page >= MAX_PAGES;
                    let mut ids = ids;
                    let mut posts = self.posts;
                    proof {
                        lemma_deep_view_concat(posts@, ids@);
                    }
                    posts.append(&mut ids);
                    let phase = if !last {
                        Phase::Collecting
                    } else if posts.len() == 0 {
                        Phase::ReportingNone
                    } else {
                        Phase::ReportingTotal
                    };
                    let page = if last {
                        self.page
                    } else {
                        self.page + 1
                    };
                    RunStep::Continue(CleaningRun { phase, page, posts, ..self })
                },
                RunEvent::Failed(error) => RunStep::Done(Err(error)),
                _ => RunStep::Done(Err(Error::out_of_turn())),
            },
            Phase::ReportingNone => RunStep::Done(Ok(self.summary())),
            Phase::ReportingTotal => RunStep::Continue(
                CleaningRun { phase: Phase::Deleting, ..self },
            ),
            Phase::Deleting => {
                let total = self.posts.len();
                assert(self.done < total);
                let done = self.done + 1;
                match event {
                    RunEvent::Deleted(DeletionOutcome::Success) => RunStep::Continue(
                        CleaningRun {
                            phase: Phase::Reporting,
                            done,
                            succeeded: self.succeeded + 1,
                            solve_next: false,
                            ..self
                        },
                    ),
                    RunEvent::Deleted(DeletionOutcome::CaptchaRequired) => RunStep::Continue(
                        CleaningRun {
                            phase: Phase::Reporting,
                            done,
                            failed: self.failed + 1,
                            solve_next: self.has_solver || self.solve_next,
                            ..self
                        },
                    ),
                    _ => RunStep::Continue(
                        CleaningRun {
                            phase: Phase::Reporting,
                            done,
                            failed: self.failed + 1,
                            ..self
                        },
                    ),
                }
            },
            Phase::Reporting => RunStep::Continue(CleaningRun { phase: Phase::Pausing, ..self }),
            Phase::Pausing => {
                let phase = if self.done < self.posts.len() {
                    Phase::Deleting
                } else {
                    Phase::ReportingFinal
                };
                RunStep::Continue(CleaningRun { phase, ..self })
            },
            Phase::ReportingFinal => RunStep::Done(Ok(self.summary())),
        }
    }
}

/// The name by which the first provider is chosen.
pub const TWO_CAPTCHA_NAME: &'static str = "2captcha";

/// The name by which the second provider is chosen.
pub const ANTI_CAPTCHA_NAME: &'static str = "anticaptcha";

/// The provider that a key and a provider's name choose: none without a
/// key, with an empty key, without a name, or with a name that names none.
pub open spec fn chosen_provider(key: Option<Seq<char>>, name: Option<Seq<char>>) -> Option<
    Provider,
> {
    match (key, name) {
        (Some(key), Some(name)) => if key.len() == 0 {
            None
        } else if name == TWO_CAPTCHA_NAME@ {
            Some(Provider::TwoCaptcha)
        } else if name == ANTI_CAPTCHA_NAME@ {
            Some(Provider::AntiCaptcha)
        } else {
            None
        },
        _ => None,
    }
}

/// The solver that a key and a provider's name configure.
pub fn select_solver(captcha_key: Option<String>, captcha_type: Option<String>) -> (solver: Option<
    Solver,
>)
    ensures
        match chosen_provider(captcha_key.deep_view(), captcha_type.deep_view()) {
            Some(provider) => solver matches Some(chosen) && chosen.provider() == provider
                && Some(chosen.api_key()) == captcha_key.deep_view(),
            None => solver is None,
        },
{
    match (captcha_key, captcha_type) {
        (Some(key), Some(name)) => {
            if key.as_str().is_empty() {
                None
            } else if str_eq(name.as_str(), TWO_CAPTCHA_NAME) {
                Some(Solver::TwoCaptcha(TwoCaptcha::new(key)))
            } else if str_eq(name.as_str(), ANTI_CAPTCHA_NAME) {
                Some(Solver::AntiCaptcha(AntiCaptcha::new(key)))
            } else {
                None
            }
        },
        _ => None,
    }
}

/// The request that lists a user's galleries, for a session that holds the
/// identity `identity`; a session without identity is refused.
pub open spec fn galleries_command(identity: Seq<char>, post_type: Seq<char>) -> Result<
    RequestView,
    ErrorView,
> {
    if identity.len() == 0 {
        Err(ErrorView::AuthRequired)
    } else {
        Ok(page_request(profile_url(identity, post_type)))
    }
}

/// The request that lists the galleries of the logged-in user.
pub fn get_galleries(session: &SessionManager, post_type: &str) -> (r: Result<Request, Error>)
    ensures
        match galleries_command(session.identity(), post_type@) {
            Ok(request) => r matches Ok(found) && found@ == request,
            Err(error) => r matches Err(found) && found@ == error,
        },
{
    if !session.is_authenticated() {
        Err(Error::AuthRequired)
    } else {
        Ok(Scraper::galleries_request(session.user_id(), post_type))
    }
}

/// The message for a failure to list galleries: its own words for a missing
/// login, the error's message otherwise.
pub open spec fn galleries_failure(error: ErrorView) -> Seq<char> {
    match error {
        ErrorView::AuthRequired => "Not logged in"@,
        _ => error_text(error),
    }
}

/// The message for a failure to list galleries.
pub fn galleries_failure_text(error: &Error) -> (r: String)
    ensures
        r@ == galleries_failure(error@),
{
    match error {
        Error::AuthRequired => String::from_str("Not logged in"),
        _ => error.message(),
    }
}

/// Begins a run for the logged-in user, with the solver that the key and
/// the provider's name configure; a session without identity is refused.
pub fn start_cleaning(
    session: &SessionManager,
    captcha_key: Option<String>,
    captcha_type: Option<String>,
) -> (r: Result<(Cleaner, CleaningRun), Error>)
    ensures
        session.identity().len() == 0 ==> (r matches Err(error) && error@
            == ErrorView::AuthRequired),
        session.identity().len() > 0 ==> (r matches Ok((cleaner, run)) && cleaner.identity()
            == session.identity() && run@ == started(cleaner.solver_configured())
            && match chosen_provider(captcha_key.deep_view(), captcha_type.deep_view()) {
            Some(provider) => cleaner.solver() matches Some(chosen) && chosen.provider()
                == provider && Some(chosen.api_key()) == captcha_key.deep_view(),
            None => cleaner.solver() is None,
        }),
{
    if !session.is_authenticated() {
        return Err(Error::AuthRequired);
    }
    let solver = select_solver(captcha_key, captcha_type);
    let cleaner = Cleaner::new(session.snapshot(), solver);
    let run = CleaningRun::begin(cleaner.has_solver());
    Ok((cleaner, run))
}

} // verus!
