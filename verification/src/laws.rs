use vstd::prelude::*;
use crate::auth::{
    identity_after, login_advance, shows_login, LoginEventView, LoginPhaseView, LoginStepView,
    LoginView,
};
use crate::captcha::{
    anti_captcha_poll_paths, anti_captcha_refuses, anti_captcha_submit_paths, poll_request,
    refusal, solve_action, solve_advance, two_captcha_paths, SolveActionView, SolveEventView,
    SolvePhaseView, SolveStepView, SolvingView, NOT_READY, POLL_INTERVAL_MS,
};
use crate::commands::galleries_command;
use crate::error::{ErrorView, Provider, Stage};
use crate::json::json_fields;
use crate::commands::{
    action_spec, advance_spec, deletions, discovered, final_message, nothing_message, record,
    started, tally_of, verdict_of, Phase, RunActionView, RunEventView, RunStepView, RunView,
    SummaryView, Verdict, ATTEMPT_DELAY_MS, MAX_PAGES,
};

verus! {

/// The run after a sequence of events, or its end if it ended on the way.
/// Events that come after the end are not looked at.
pub open spec fn run_through(run: RunView, events: Seq<RunEventView>) -> RunStepView
    decreases events.len(),
{
    if events.len() == 0 {
        RunStepView::Continue(run)
    } else {
        match advance_spec(run, events[0]) {
            RunStepView::Continue(next) => run_through(next, events.drop_first()),
            RunStepView::Done(result) => RunStepView::Done(result),
        }
    }
}

/// How many listing pages are asked for by a driver that begins with `run`,
/// performs the action the run waits for, hands in the next of `events`, and
/// so on, the action that is pending after the last event included.
pub open spec fn pages_fetched(run: RunView, events: Seq<RunEventView>) -> nat
    decreases events.len(),
{
    let here = if action_spec(run) is Fetch {
        1nat
    } else {
        0nat
    };
    if events.len() == 0 {
        here
    } else {
        match advance_spec(run, events[0]) {
            RunStepView::Continue(next) => here + pages_fetched(next, events.drop_first()),
            RunStepView::Done(_) => here,
        }
    }
}

/// How many deletion attempts the same driver makes.
pub open spec fn attempts_made(run: RunView, events: Seq<RunEventView>) -> nat
    decreases events.len(),
{
    let here = if action_spec(run) is Delete {
        1nat
    } else {
        0nat
    };
    if events.len() == 0 {
        here
    } else {
        match advance_spec(run, events[0]) {
            RunStepView::Continue(next) => here + attempts_made(next, events.drop_first()),
            RunStepView::Done(_) => here,
        }
    }
}

/// The events by which a driver answers a sequence of attempts: for each
/// attempt the event that ends it, then the two that end the notification
/// and the pause after it.
pub open spec fn attempt_events(results: Seq<RunEventView>) -> Seq<RunEventView>
    decreases results.len(),
{
    if results.len() == 0 {
        Seq::empty()
    } else {
        attempt_events(results.drop_last()) + seq![
            results.last(),
            RunEventView::Completed,
            RunEventView::Completed,
        ]
    }
}

/// What each of a sequence of attempts counts as.
pub open spec fn verdicts_of(results: Seq<RunEventView>) -> Seq<Verdict> {
    Seq::new(results.len(), |i: int| verdict_of(results[i]))
}

/// The run `begun` after its first `k` attempts have ended as `results` say.
pub open spec fn after_attempts(begun: RunView, results: Seq<RunEventView>, k: nat) -> RunView {
    RunView {
        phase: if k < begun.total() {
            Phase::Deleting
        } else {
            Phase::ReportingFinal
        },
        done: k,
        tally: tally_of(verdicts_of(results.take(k as int)), begun.has_solver),
        ..begun
    }
}

/// An escalation is pending after a sequence of attempts: one of them met a
/// challenge, and no later one deleted its item.
pub open spec fn challenge_pending(verdicts: Seq<Verdict>) -> bool {
    exists|j: int|
        0 <= j < verdicts.len() && verdicts[j] == Verdict::Challenged && forall|i: int|
            j < i < verdicts.len() ==> verdicts[i] != Verdict::Deleted
}

/// The room for page requests that a run has left.
pub open spec fn page_budget(run: RunView) -> int {
    match run.phase {
        Phase::Announcing => MAX_PAGES as int,
        Phase::Collecting => MAX_PAGES + 1 - run.page,
        _ => 0,
    }
}

/// A valid run stays valid, whatever event it is handed.
pub proof fn lemma_advance_keeps_valid(run: RunView, event: RunEventView)
    requires
        run.valid(),
    ensures
        advance_spec(run, event) matches RunStepView::Continue(next) ==> next.valid(),
{
}

/// Running through two sequences of events, one after the other, is running
/// through their concatenation.
pub proof fn lemma_run_through_concat(
    run: RunView,
    first: Seq<RunEventView>,
    second: Seq<RunEventView>,
)
    ensures
        run_through(run, first + second) == match run_through(run, first) {
            RunStepView::Continue(middle) => run_through(middle, second),
            RunStepView::Done(result) => RunStepView::Done(result),
        },
    decreases first.len(),
{
    if first.len() == 0 {
        assert(first + second =~= second);
    } else {
        assert((first + second)[0] == first[0]);
        assert((first + second).drop_first() =~= first.drop_first() + second);
        match advance_spec(run, first[0]) {
            RunStepView::Continue(next) => {
                lemma_run_through_concat(next, first.drop_first(), second);
            },
            RunStepView::Done(_) => {},
        }
    }
}

/// An empty listing page ends discovery: no page is asked for after it,
/// whatever events follow.
pub proof fn lemma_empty_page_ends_discovery(run: RunView, events: Seq<RunEventView>)
    requires
        run.valid(),
        run.phase == Phase::Collecting,
    ensures
        advance_spec(run, RunEventView::Page(Seq::empty())) == RunStepView::Continue(
            discovered(run),
        ),
        pages_fetched(discovered(run), events) == 0,
{
    assert(run.posts + Seq::<Seq<char>>::empty() =~= run.posts);
    lemma_advance_keeps_valid(run, RunEventView::Page(Seq::empty()));
    lemma_pages_within_budget(discovered(run), events);
}

/// A run never asks for more pages than its budget has room for.
pub proof fn lemma_pages_within_budget(run: RunView, events: Seq<RunEventView>)
    requires
        run.valid(),
    ensures
        pages_fetched(run, events) <= page_budget(run),
    decreases events.len(),
{
    if events.len() > 0 {
        lemma_advance_keeps_valid(run, events[0]);
        match advance_spec(run, events[0]) {
            RunStepView::Continue(next) => {
                lemma_pages_within_budget(next, events.drop_first());
            },
            RunStepView::Done(_) => {},
        }
    }
}

/// Discovery asks for at most `MAX_PAGES` listing pages, whatever the pages
/// hold and however the requests end.
pub proof fn lemma_page_requests_bounded(has_solver: bool, events: Seq<RunEventView>)
    ensures
        pages_fetched(started(has_solver), events) <= MAX_PAGES,
{
    lemma_pages_within_budget(started(has_solver), events);
}

/// Where discovery found nothing, the run reports so and ends: it makes no
/// attempt, and its summary counts nothing and carries the fixed message.
pub proof fn lemma_nothing_found(run: RunView, events: Seq<RunEventView>)
    requires
        run.valid(),
        run.phase == Phase::ReportingNone,
        events.len() > 0,
    ensures
        attempts_made(run, events) == 0,
        run_through(run, events) == RunStepView::Done(
            Ok(
                SummaryView {
                    attempted: 0,
                    succeeded: 0,
                    failed: 0,
                    final_message: nothing_message(),
                },
            ),
        ),
{
}

/// The counts of a tally are the number of deletions and the number of the
/// other attempts.
pub proof fn lemma_tally_counts(verdicts: Seq<Verdict>, has_solver: bool)
    ensures
        tally_of(verdicts, has_solver).succeeded == deletions(verdicts),
        tally_of(verdicts, has_solver).failed == verdicts.len() - deletions(verdicts),
        deletions(verdicts) <= verdicts.len(),
    decreases verdicts.len(),
{
    if verdicts.len() > 0 {
        lemma_tally_counts(verdicts.drop_last(), has_solver);
    }
}

/// The next attempt carries a solved challenge exactly where a solver is
/// configured and a challenge is pending.
pub proof fn lemma_escalation(verdicts: Seq<Verdict>, has_solver: bool)
    ensures
        tally_of(verdicts, has_solver).solve_next == (has_solver && challenge_pending(verdicts)),
    decreases verdicts.len(),
{
    if verdicts.len() == 0 {
    } else {
        let before = verdicts.drop_last();
        let n = verdicts.len() - 1;
        lemma_escalation(before, has_solver);
        match verdicts.last() {
            Verdict::Deleted => {
                assert(!challenge_pending(verdicts)) by {
                    if challenge_pending(verdicts) {
                        let j = choose|j: int|
                            0 <= j < verdicts.len() && verdicts[j] == Verdict::Challenged
                                && forall|i: int|
                                j < i < verdicts.len() ==> verdicts[i] != Verdict::Deleted;
                        assert(verdicts[n] == Verdict::Deleted);
                    }
                }
            },
            Verdict::Challenged => {
                assert(challenge_pending(verdicts)) by {
                    assert(0 <= n < verdicts.len() && verdicts[n] == Verdict::Challenged
                        && forall|i: int|
                        n < i < verdicts.len() ==> verdicts[i] != Verdict::Deleted);
                }
            },
            Verdict::Failed => {
                if challenge_pending(before) {
                    let j = choose|j: int|
                        0 <= j < before.len() && before[j] == Verdict::Challenged && forall|i: int|
                            j < i < before.len() ==> before[i] != Verdict::Deleted;
                    assert(0 <= j < verdicts.len() && verdicts[j] == Verdict::Challenged
                        && forall|i: int|
                        j < i < verdicts.len() ==> verdicts[i] != Verdict::Deleted) by {
                        assert forall|i: int| j < i < verdicts.len() implies verdicts[i]
                            != Verdict::Deleted by {
                            if i < n {
                                assert(before[i] == verdicts[i]);
                            }
                        }
                    }
                }
                if challenge_pending(verdicts) {
                    let j = choose|j: int|
                        0 <= j < verdicts.len() && verdicts[j] == Verdict::Challenged
                            && forall|i: int|
                            j < i < verdicts.len() ==> verdicts[i] != Verdict::Deleted;
                    assert(j < n);
                    assert(0 <= j < before.len() && before[j] == Verdict::Challenged
                        && forall|i: int| j < i < before.len() ==> before[i] != Verdict::Deleted)
                        by {
                        assert forall|i: int| j < i < before.len() implies before[i]
                            != Verdict::Deleted by {
                            assert(before[i] == verdicts[i]);
                        }
                    }
                }
            },
        }
    }
}

/// After its first `k` attempts a run waits for the next attempt, or for its
/// final report, with the tally of those `k` attempts.
pub proof fn lemma_after_attempts(begun: RunView, results: Seq<RunEventView>, k: nat)
    requires
        begun.valid(),
        begun.phase == Phase::Deleting,
        begun.done == 0,
        results.len() == begun.total(),
        k <= results.len(),
    ensures
        run_through(begun, attempt_events(results.take(k as int))) == RunStepView::Continue(
            after_attempts(begun, results, k),
        ),
        after_attempts(begun, results, k).valid(),
    decreases k,
{
    let has_solver = begun.has_solver;
    if k == 0 {
        assert(results.take(0) =~= Seq::<RunEventView>::empty());
        assert(verdicts_of(results.take(0)) =~= Seq::<Verdict>::empty());
        assert(after_attempts(begun, results, 0) == begun);
    } else {
        let j = (k - 1) as nat;
        lemma_after_attempts(begun, results, j);
        let now = results.take(k as int);
        let before = results.take(j as int);
        assert(now.drop_last() =~= before);
        assert(now.last() == results[j as int]);
        let tail = seq![results[j as int], RunEventView::Completed, RunEventView::Completed];
        assert(attempt_events(now) == attempt_events(before) + tail);
        lemma_run_through_concat(begun, attempt_events(before), tail);
        let at = after_attempts(begun, results, j);
        assert(verdicts_of(now).drop_last() =~= verdicts_of(before));
        assert(verdicts_of(now).last() == verdict_of(results[j as int]));
        lemma_tally_counts(verdicts_of(before), has_solver);
        lemma_tally_counts(verdicts_of(now), has_solver);
        lemma_escalation(verdicts_of(now), has_solver);
        let one = RunView {
            phase: Phase::Reporting,
            done: k,
            tally: record(at.tally, verdict_of(results[j as int]), has_solver),
            ..at
        };
        assert(advance_spec(at, tail[0]) == RunStepView::Continue(one));
        let two = RunView { phase: Phase::Pausing, ..one };
        let three = after_attempts(begun, results, k);
        assert(tail.drop_first() =~= seq![RunEventView::Completed, RunEventView::Completed]);
        assert(tail.drop_first().drop_first() =~= seq![RunEventView::Completed]);
        assert(tail.drop_first().drop_first().drop_first() =~= Seq::<RunEventView>::empty());
        assert(advance_spec(one, RunEventView::Completed) == RunStepView::Continue(two));
        assert(advance_spec(two, RunEventView::Completed) == RunStepView::Continue(three));
        reveal_with_fuel(run_through, 4);
        assert(run_through(at, tail) == RunStepView::Continue(three));
    }
}

/// A run over `results.len()` discovered items, of which the attempts ended
/// as `results` say, reports the number of deletions as succeeded, the number
/// of the other attempts as failed, and the final message made of the two.
pub proof fn lemma_run_counts(begun: RunView, results: Seq<RunEventView>)
    requires
        begun.valid(),
        begun.phase == Phase::Deleting,
        begun.done == 0,
        results.len() == begun.total(),
    ensures
        deletions(verdicts_of(results)) <= results.len(),
        run_through(begun, attempt_events(results).push(RunEventView::Completed))
            == RunStepView::Done(
            Ok(
                SummaryView {
                    attempted: results.len(),
                    succeeded: deletions(verdicts_of(results)),
                    failed: (results.len() - deletions(verdicts_of(results))) as nat,
                    final_message: final_message(
                        deletions(verdicts_of(results)),
                        (results.len() - deletions(verdicts_of(results))) as nat,
                    ),
                },
            ),
        ),
{
    let n = results.len();
    lemma_after_attempts(begun, results, n);
    assert(results.take(n as int) =~= results);
    lemma_tally_counts(verdicts_of(results), begun.has_solver);
    let last = seq![RunEventView::Completed];
    assert(attempt_events(results).push(RunEventView::Completed) =~= attempt_events(results)
        + last);
    lemma_run_through_concat(begun, attempt_events(results), last);
    let end = after_attempts(begun, results, n);
    assert(last.drop_first() =~= Seq::<RunEventView>::empty());
    reveal_with_fuel(run_through, 2);
    assert(run_through(end, last) == RunStepView::Done(Ok(end.summary())));
}

/// The attempt after the first `k` carries a solved challenge exactly where
/// a solver is configured and a challenge is pending after those `k`.
pub proof fn lemma_attempt_escalates(begun: RunView, results: Seq<RunEventView>, k: nat)
    requires
        begun.valid(),
        begun.phase == Phase::Deleting,
        begun.done == 0,
        results.len() == begun.total(),
        k < results.len(),
    ensures
        run_through(begun, attempt_events(results.take(k as int))) == RunStepView::Continue(
            after_attempts(begun, results, k),
        ),
        action_spec(after_attempts(begun, results, k)) == (RunActionView::Delete {
            post_no: begun.posts[k as int],
            solve_captcha: begun.has_solver && challenge_pending(
                verdicts_of(results.take(k as int)),
            ),
        }),
{
    lemma_after_attempts(begun, results, k);
    lemma_escalation(verdicts_of(results.take(k as int)), begun.has_solver);
}

/// Between two attempts a run pauses for `ATTEMPT_DELAY_MS` milliseconds,
/// however the attempt before ended.
pub proof fn lemma_pause_after_every_attempt(run: RunView, event: RunEventView)
    requires
        run.valid(),
        run.phase == Phase::Deleting,
    ensures
        advance_spec(run, event) matches RunStepView::Continue(reporting) && advance_spec(
            reporting,
            RunEventView::Completed,
        ) matches RunStepView::Continue(pausing) && action_spec(pausing) == RunActionView::Sleep(
            ATTEMPT_DELAY_MS as nat,
        ),
{
}

/// A login that the landing page does not confirm ends with `false`, is no
/// error, and leaves the session's identity as it was; a session that had
/// none is then still refused where a login is needed.
pub proof fn lemma_unconfirmed_login(
    login: LoginView,
    page: Seq<char>,
    identity: Seq<char>,
    post_type: Seq<char>,
)
    requires
        login.phase is Checking,
        shows_login(page) == Some(false),
    ensures
        login_advance(login, LoginEventView::Page(page)) == LoginStepView::Done(Ok(false)),
        identity_after(identity, login, login_advance(login, LoginEventView::Page(page)))
            == identity,
        identity.len() == 0 ==> galleries_command(
            identity_after(identity, login, login_advance(login, LoginEventView::Page(page))),
            post_type,
        ) == Err::<crate::http::RequestView, ErrorView>(ErrorView::AuthRequired),
{
}

/// The solve after a sequence of events, or its end if it ended on the way.
pub open spec fn solve_through(solving: SolvingView, events: Seq<SolveEventView>) -> SolveStepView
    decreases events.len(),
{
    if events.len() == 0 {
        SolveStepView::Continue(solving)
    } else {
        match solve_advance(solving, events[0]) {
            SolveStepView::Continue(next) => solve_through(next, events.drop_first()),
            ended => ended,
        }
    }
}

/// The events of a sequence of polls: for each the service's reply, then the
/// end of the pause after it.
pub open spec fn poll_rounds(replies: Seq<Seq<u8>>) -> Seq<SolveEventView>
    decreases replies.len(),
{
    if replies.len() == 0 {
        Seq::empty()
    } else {
        seq![SolveEventView::Reply(replies[0]), SolveEventView::Elapsed] + poll_rounds(
            replies.drop_first(),
        )
    }
}

/// The first provider says that the solution is not ready: its status is
/// not 1 and its `request` field is the not-ready word.
pub open spec fn says_not_ready(reply: Seq<u8>) -> bool {
    match json_fields(reply, two_captcha_paths()) {
        Some(fields) => fields[0].0 != Some(1i64) && fields[1].1 == Some(NOT_READY@),
        None => false,
    }
}

/// While the first provider says that the solution is not ready, a solve
/// pauses and polls again: after any number of such replies it stands where
/// it stood, and has not failed.
pub proof fn lemma_not_ready_polls_again(
    solving: SolvingView,
    ticket: crate::captcha::TicketView,
    replies: Seq<Seq<u8>>,
)
    requires
        solving.provider == Provider::TwoCaptcha,
        solving.phase == SolvePhaseView::Polling(ticket),
        forall|i: int| 0 <= i < replies.len() ==> says_not_ready(#[trigger] replies[i]),
    ensures
        solve_through(solving, poll_rounds(replies)) == SolveStepView::Continue(solving),
        solve_action(solving) == SolveActionView::Send(poll_request(solving, ticket)),
        replies.len() > 0 ==> (solve_advance(solving, SolveEventView::Reply(replies[0]))
            matches SolveStepView::Continue(waiting) && solve_action(waiting)
            == SolveActionView::Sleep(POLL_INTERVAL_MS as nat)),
    decreases replies.len(),
{
    if replies.len() > 0 {
        let waiting = SolvingView { phase: SolvePhaseView::Waiting(ticket), ..solving };
        assert(says_not_ready(replies[0]));
        assert(solve_advance(solving, SolveEventView::Reply(replies[0]))
            == SolveStepView::Continue(waiting));
        assert(solve_advance(waiting, SolveEventView::Elapsed) == SolveStepView::Continue(
            solving,
        ));
        let rest = replies.drop_first();
        assert forall|i: int| 0 <= i < rest.len() implies says_not_ready(#[trigger] rest[i]) by {
            assert(rest[i] == replies[i + 1]);
        }
        lemma_not_ready_polls_again(solving, ticket, rest);
        let events = poll_rounds(replies);
        assert(events[0] == SolveEventView::Reply(replies[0]));
        assert(events.drop_first()[0] == SolveEventView::Elapsed);
        assert(events.drop_first().drop_first() =~= poll_rounds(rest));
        reveal_with_fuel(solve_through, 3);
    }
}

/// A refusal by the second provider ends a solve at once, at the submission
/// and at every poll, with the provider's name and its own description.
pub proof fn lemma_refusal_ends_solve(solving: SolvingView, reply: Seq<u8>)
    requires
        solving.provider == Provider::AntiCaptcha,
    ensures
        solving.phase is Submitting ==> match json_fields(reply, anti_captcha_submit_paths()) {
            Some(fields) => anti_captcha_refuses(fields[0]) ==> solve_advance(
                solving,
                SolveEventView::Reply(reply),
            ) == SolveStepView::Failed(refusal(Provider::AntiCaptcha, Stage::Submit, fields[1].2)),
            None => true,
        },
        solving.phase is Polling ==> match json_fields(reply, anti_captcha_poll_paths()) {
            Some(fields) => anti_captcha_refuses(fields[0]) ==> solve_advance(
                solving,
                SolveEventView::Reply(reply),
            ) == SolveStepView::Failed(refusal(Provider::AntiCaptcha, Stage::Poll, fields[1].2)),
            None => true,
        },
{
}

} // verus!
