//! One submission from its arrival to its answer: who sent it, which problem
//! it is for, the judging, and the record that an accepted submission leaves
//! in the progress store.

use crate::config::{Config, ConfigView};
use crate::languages::{CompileRequest, CompileRequestView, Language};
use crate::progress::{
    current_problem, is_completed, record_accepted, rfc3339, spec_current_problem,
    spec_record_accepted, statement_views, timestamp, PlayerLookup, Statement, StatementView,
};
use crate::submit::{
    handle_submit, problem_views, spec_handle_submit, Event, Judge, JudgeView, Stage, Step,
    StepView, Submission,
};
use crate::testcases::{RunRequest, RunRequestView, TestCases, TestCasesView};
use crate::{Output, OutputView};
use vstd::prelude::*;

verus! {

/// What the request said of its sender.
#[derive(Debug, PartialEq, Eq)]
pub enum Authorization {
    /// It carried no authorization.
    Missing,
    /// Its authorization is no text.
    Unreadable,
    /// Its authorization, as it was sent.
    Token(String),
}

/// Who sent the request: the player that the token was made for. A request
/// without a token, or with one that is none of this service, is
/// unauthorized; one whose authorization cannot be read is the server's failure.
pub open spec fn spec_authenticate(conf: ConfigView, authorization: Authorization) -> Result<
    Seq<char>,
    OutputView,
> {
    match authorization {
        Authorization::Missing => Err(OutputView::Unauthorized),
        Authorization::Unreadable => Err(OutputView::ServerError),
        Authorization::Token(token) => sender(conf.decrypt(token@)),
    }
}

/// The sender, given what the token decrypts to.
pub open spec fn sender(decrypted: Option<Seq<char>>) -> Result<Seq<char>, OutputView> {
    match decrypted {
        Some(user_id) => Ok(user_id),
        None => Err(OutputView::Unauthorized),
    }
}

/// The value of the result of an authentication.
pub open spec fn sender_view(r: Result<String, Output>) -> Result<Seq<char>, OutputView> {
    match r {
        Ok(user_id) => Ok(user_id@),
        Err(verdict) => Err(verdict@),
    }
}

/// The sender, given what the token decrypts to.
pub fn sender_of(decrypted: Option<String>) -> (r: Result<String, Output>)
    ensures
        sender_view(r) == sender(crate::config::text_view(decrypted)),
{
    match decrypted {
        Some(user_id) => Ok(user_id),
        None => Err(Output::Unauthorized),
    }
}

/// Finds out who sent the request.
pub fn authenticate(conf: &Config, authorization: &Authorization) -> (r: Result<String, Output>)
    ensures
        sender_view(r) == spec_authenticate(conf@, *authorization),
{
    match authorization {
        Authorization::Missing => Err(Output::Unauthorized),
        Authorization::Unreadable => Err(Output::ServerError),
        Authorization::Token(token) => sender_of(conf.decrypt(token.as_str())),
    }
}

/// Where a submission stands.
#[derive(Clone, Copy, Debug, PartialEq, Eq, Structural)]
pub enum Phase {
    /// The player's progress has been asked for.
    AwaitingPlayer,
    /// The program is being judged.
    Judging,
    /// The program was accepted; the time of the record has been asked for.
    AwaitingClock,
    /// The record has been handed to the store.
    AwaitingCommit,
    /// The answer has been given.
    Finished,
}

/// What came back from the work that was asked for.
#[derive(Debug, PartialEq, Eq)]
pub enum Reply {
    /// The store's answer on the player's progress.
    Player(PlayerLookup),
    /// What the judge's request gave.
    Judge(Event),
    /// The time now, in seconds and nanoseconds since the Unix epoch.
    Clock { secs: i64, nanos: u32 },
    /// Whether the transaction was committed. If not, it was rolled back.
    Committed(bool),
}

/// What is to be done next, or the answer.
#[derive(Debug, PartialEq, Eq)]
pub enum Request {
    /// Prepare the program.
    Compile(CompileRequest),
    /// Run one test.
    Run(RunRequest),
    /// Read the clock.
    Clock,
    /// Run the statements in their order in one transaction and commit it;
    /// if one of them or the commit fails, roll all of it back.
    Commit(Vec<Statement>),
    /// Answer the player.
    Done(Output),
}

/// The mathematical value of a [`Request`].
pub enum RequestView {
    Compile(CompileRequestView),
    Run(RunRequestView),
    Clock,
    Commit(Seq<StatementView>),
    Done(OutputView),
}

impl View for Request {
    type V = RequestView;

    open spec fn view(&self) -> RequestView {
        match self {
            Request::Compile(request) => RequestView::Compile(request@),
            Request::Run(request) => RequestView::Run(request@),
            Request::Clock => RequestView::Clock,
            Request::Commit(statements) => RequestView::Commit(statement_views(statements@)),
            Request::Done(verdict) => RequestView::Done(verdict@),
        }
    }
}

/// One submission on its way.
pub struct Session {
    problems: Vec<TestCases>,
    user_id: String,
    code: String,
    language: Language,
    problem: usize,
    judge: Option<Judge>,
    mean: u64,
    jitter: u64,
    phase: Phase,
}

/// The mathematical value of a [`Session`].
pub struct SessionView {
    pub problems: Seq<TestCasesView>,
    pub user_id: Seq<char>,
    pub code: Seq<char>,
    pub language: Language,
    pub problem: usize,
    pub judge: Option<JudgeView>,
    pub mean: u64,
    pub jitter: u64,
    pub phase: Phase,
}

impl View for Session {
    type V = SessionView;

    closed spec fn view(&self) -> SessionView {
        SessionView {
            problems: problem_views(self.problems@),
            user_id: self.user_id@,
            code: self.code@,
            language: self.language,
            problem: self.problem,
            judge: match self.judge {
                Some(judge) => Some(judge@),
                None => None,
            },
            mean: self.mean,
            jitter: self.jitter,
            phase: self.phase,
        }
    }
}

impl SessionView {
    /// The submission of `user_id` as it arrives, with nothing known of the
    /// player's progress.
    pub open spec fn begin(
        problems: Seq<TestCasesView>,
        user_id: Seq<char>,
        code: Seq<char>,
        language: Language,
    ) -> SessionView {
        SessionView {
            problems,
            user_id,
            code,
            language,
            problem: 0,
            judge: None,
            mean: 0,
            jitter: 0,
            phase: Phase::AwaitingPlayer,
        }
    }

    /// The state after the answer, with this answer.
    pub open spec fn answer(self, verdict: OutputView) -> (SessionView, RequestView) {
        (SessionView { phase: Phase::Finished, judge: None, ..self }, RequestView::Done(verdict))
    }

    /// What follows the store's answer on the player's progress: a store
    /// that failed is the server's failure; an unknown player is
    /// unauthorized; a player who has solved every problem is told so, and
    /// nothing is compiled or run; else the judging of the next unsolved
    /// problem starts.
    pub open spec fn resolve(self, lookup: PlayerLookup) -> (SessionView, RequestView) {
        match lookup {
            PlayerLookup::Failed => self.answer(OutputView::ServerError),
            PlayerLookup::Missing => self.answer(OutputView::Unauthorized),
            PlayerLookup::Found(solved) => if solved >= self.problems.len() {
                self.answer(OutputView::Completed)
            } else {
                match spec_handle_submit(
                    self.problems,
                    solved as usize,
                    self.code,
                    self.language,
                ) {
                    Ok((judge, request)) => (
                        SessionView {
                            problem: solved as usize,
                            judge: Some(judge),
                            phase: Phase::Judging,
                            ..self
                        },
                        RequestView::Compile(request),
                    ),
                    Err(verdict) => self.answer(verdict),
                }
            },
        }
    }

    /// What follows a step of the judge: its request is passed on; an
    /// accepted program is not answered yet, the time of its record is asked
    /// for; any other verdict is the answer.
    pub open spec fn judged(self, judge: JudgeView, step: StepView) -> (SessionView, RequestView) {
        match step {
            StepView::Run(request) => (
                SessionView { judge: Some(judge), ..self },
                RequestView::Run(request),
            ),
            StepView::Done(OutputView::Accepted(mean, jitter)) => (
                SessionView { judge: None, mean, jitter, phase: Phase::AwaitingClock, ..self },
                RequestView::Clock,
            ),
            StepView::Done(verdict) => self.answer(verdict),
        }
    }

    /// What follows the reading of the clock: the record of the accepted
    /// submission under this time stamp.
    pub open spec fn stamped(self, stamp: Option<Seq<char>>) -> (SessionView, RequestView) {
        match stamp {
            Some(now) if self.problem < usize::MAX => (
                SessionView { phase: Phase::AwaitingCommit, ..self },
                RequestView::Commit(
                    spec_record_accepted(self.user_id, self.problem, self.language, self.code, now),
                ),
            ),
            _ => self.answer(OutputView::ServerError),
        }
    }

    /// The next state and what is asked for next, given what came back.
    /// A reply that answers no request ends the submission with `ServerError`.
    pub open spec fn advance(self, reply: Reply) -> (SessionView, RequestView) {
        match (self.phase, reply) {
            (Phase::AwaitingPlayer, Reply::Player(lookup)) => self.resolve(lookup),
            (Phase::Judging, Reply::Judge(event)) => match self.judge {
                Some(judge) => self.judged(judge.advance(event).0, judge.advance(event).1),
                None => self.answer(OutputView::ServerError),
            },
            (Phase::AwaitingClock, Reply::Clock { secs, nanos }) => self.stamped(
                rfc3339(secs, nanos),
            ),
            (Phase::AwaitingCommit, Reply::Committed(done)) => if done {
                self.answer(OutputView::Accepted(self.mean, self.jitter))
            } else {
                self.answer(OutputView::ServerError)
            },
            _ => self.answer(OutputView::ServerError),
        }
    }
}

impl SessionView {
    /// What is asked for at each of `replies`, taken in turn.
    pub open spec fn run(self, replies: Seq<Reply>) -> Seq<RequestView>
        decreases replies.len(),
    {
        if replies.len() == 0 {
            Seq::empty()
        } else {
            let (next, request) = self.advance(replies[0]);
            seq![request] + next.run(replies.drop_first())
        }
    }
}

/// How many of the requests hand a record to the store.
pub open spec fn commits(requests: Seq<RequestView>) -> nat
    decreases requests.len(),
{
    if requests.len() == 0 {
        0
    } else {
        commits(requests.drop_first()) + if requests[0] is Commit {
            1nat
        } else {
            0nat
        }
    }
}

/// How far a submission has come.
pub open spec fn progress(phase: Phase) -> nat {
    match phase {
        Phase::AwaitingPlayer => 0,
        Phase::Judging => 1,
        Phase::AwaitingClock => 2,
        Phase::AwaitingCommit => 3,
        Phase::Finished => 4,
    }
}

/// A submission never goes back, and keeps its player, its program and,
/// once the store has told it, its problem: the index of that problem is the
/// player's count. A record is handed to the store only on the step from an
/// accepted program to the wait for the store: it logs the submission of this
/// player for this problem and sets the player's count to one more than the
/// problem's index.
pub proof fn lemma_record_follows_acceptance(session: SessionView, reply: Reply)
    ensures
        progress(session.advance(reply).0.phase) >= progress(session.phase),
        session.advance(reply).0.user_id == session.user_id,
        session.advance(reply).0.code == session.code,
        session.advance(reply).0.language == session.language,
        session.phase != Phase::AwaitingPlayer ==> session.advance(reply).0.problem
            == session.problem,
        session.advance(reply).0.phase == Phase::Judging && session.phase == Phase::AwaitingPlayer
            ==> {
            &&& reply matches Reply::Player(PlayerLookup::Found(solved))
            &&& solved < session.problems.len()
            &&& session.advance(reply).0.problem == solved as usize
        },
        session.advance(reply).1 is Commit ==> {
            &&& session.phase == Phase::AwaitingClock
            &&& session.advance(reply).0.phase == Phase::AwaitingCommit
            &&& reply is Clock
            &&& rfc3339(reply->secs, reply->nanos) is Some
            &&& session.advance(reply).1 == RequestView::Commit(
                spec_record_accepted(
                    session.user_id,
                    session.problem,
                    session.language,
                    session.code,
                    rfc3339(reply->secs, reply->nanos)->0,
                ),
            )
        },
        session.advance(reply).0.phase == Phase::AwaitingClock ==> {
            &&& session.phase == Phase::Judging
            &&& session.advance(reply).1 == RequestView::Clock
        },
{
}

/// The player is told of an acceptance exactly when the store has said that
/// the record was committed; if it was rolled back, the answer is `ServerError`.
pub proof fn lemma_accepted_follows_commit(session: SessionView, reply: Reply)
    ensures
        session.advance(reply).1 matches RequestView::Done(OutputView::Accepted(mean, jitter))
            ==> {
            &&& session.phase == Phase::AwaitingCommit
            &&& reply == Reply::Committed(true)
            &&& mean == session.mean
            &&& jitter == session.jitter
        },
        session.phase == Phase::AwaitingCommit && reply == Reply::Committed(true)
            ==> session.advance(reply).1 == RequestView::Done(
            OutputView::Accepted(session.mean, session.jitter),
        ),
        session.phase == Phase::AwaitingCommit && reply != Reply::Committed(true)
            ==> session.advance(reply).1 == RequestView::Done(OutputView::ServerError),
{
}

/// Whatever comes back, one submission hands at most one record to the
/// store, and none once it has handed one over or has been answered.
pub proof fn lemma_at_most_one_record(session: SessionView, replies: Seq<Reply>)
    ensures
        session.run(replies).len() == replies.len(),
        commits(session.run(replies)) <= 1,
        progress(session.phase) >= 3 ==> commits(session.run(replies)) == 0,
    decreases replies.len(),
{
    if replies.len() > 0 {
        let (next, request) = session.advance(replies[0]);
        lemma_record_follows_acceptance(session, replies[0]);
        lemma_at_most_one_record(next, replies.drop_first());
        let requests = session.run(replies);
        assert(requests[0] == request);
        assert(requests.drop_first() =~= next.run(replies.drop_first()));
    }
}

/// After the answer nothing more is asked for, whatever comes back.
pub proof fn lemma_answer_is_final(session: SessionView, replies: Seq<Reply>)
    requires
        session.phase == Phase::Finished,
    ensures
        forall|i: int| 0 <= i < replies.len() ==> session.run(replies)[i] is Done,
    decreases replies.len(),
{
    if replies.len() > 0 {
        let (next, request) = session.advance(replies[0]);
        lemma_answer_is_final(next, replies.drop_first());
        lemma_at_most_one_record(session, replies);
        assert forall|i: int| 0 <= i < replies.len() implies session.run(replies)[i] is Done by {
            if i > 0 {
                assert(session.run(replies)[i] == next.run(replies.drop_first())[i - 1]);
            }
        }
    }
}

/// A player who has solved every problem is answered `Completed` on every
/// submission, and nothing is compiled, run or recorded for it.
pub proof fn lemma_completed_runs_nothing(session: SessionView, solved: u64, later: Seq<Reply>)
    requires
        session.phase == Phase::AwaitingPlayer,
        solved >= session.problems.len(),
    ensures
        session.advance(Reply::Player(PlayerLookup::Found(solved))).1 == RequestView::Done(
            OutputView::Completed,
        ),
        forall|i: int|
            0 <= i < later.len() ==> session.advance(
                Reply::Player(PlayerLookup::Found(solved)),
            ).0.run(later)[i] is Done,
{
    lemma_answer_is_final(session.advance(Reply::Player(PlayerLookup::Found(solved))).0, later);
}

/// The start of a submission: its sender is found out, and the player's
/// progress is asked for.
pub open spec fn spec_handle_submit_with_db(
    conf: ConfigView,
    authorization: Authorization,
    payload: Submission,
    problems: Seq<TestCasesView>,
) -> Result<(SessionView, StatementView), OutputView> {
    match spec_authenticate(conf, authorization) {
        Ok(user_id) => Ok(
            (
                SessionView::begin(problems, user_id, payload.code@, payload.language),
                spec_current_problem(user_id),
            ),
        ),
        Err(verdict) => Err(verdict),
    }
}

/// Takes a submission in: finds out who sent it and asks the store for that
/// player's progress, or answers at once where the sender is not known.
pub fn handle_submit_with_db(
    conf: &Config,
    authorization: &Authorization,
    payload: Submission,
    problems: Vec<TestCases>,
) -> (r: Result<(Session, Statement), Output>)
    ensures
        match r {
            Ok((session, lookup)) => spec_handle_submit_with_db(
                conf@,
                *authorization,
                payload,
                problem_views(problems@),
            ) == Ok::<(SessionView, StatementView), OutputView>((session@, lookup@)),
            Err(verdict) => spec_handle_submit_with_db(
                conf@,
                *authorization,
                payload,
                problem_views(problems@),
            ) == Err::<(SessionView, StatementView), OutputView>(verdict@),
        },
{
    match authenticate(conf, authorization) {
        Ok(user_id) => Ok(Session::begin(problems, user_id, payload)),
        Err(verdict) => Err(verdict),
    }
}

impl Session {
    /// The submission of `user_id` as it arrives, and the lookup of that
    /// player's progress.
    pub fn begin(problems: Vec<TestCases>, user_id: String, payload: Submission) -> (r: (
        Session,
        Statement,
    ))
        ensures
            r.0@ == SessionView::begin(
                problem_views(problems@),
                user_id@,
                payload.code@,
                payload.language,
            ),
            r.1@ == spec_current_problem(user_id@),
    {
        let lookup = current_problem(user_id.as_str());
        (
            Session {
                problems,
                user_id,
                code: payload.code,
                language: payload.language,
                problem: 0,
                judge: None,
                mean: 0,
                jitter: 0,
                phase: Phase::AwaitingPlayer,
            },
            lookup,
        )
    }

    /// Whether the answer has been given.
    pub fn is_finished(&self) -> (r: bool)
        ensures
            r == (self@.phase == Phase::Finished),
    {
        matches!(self.phase, Phase::Finished)
    }

    fn answer(self, verdict: Output) -> (r: (Session, Request))
        ensures
            (r.0@, r.1@) == self@.answer(verdict@),
    {
        (
            Session {
                problems: self.problems,
                user_id: self.user_id,
                code: self.code,
                language: self.language,
                problem: self.problem,
                judge: None,
                mean: self.mean,
                jitter: self.jitter,
                phase: Phase::Finished,
            },
            Request::Done(verdict),
        )
    }

    /// What follows the store's answer on the player's progress.
    pub fn resolve(self, lookup: PlayerLookup) -> (r: (Session, Request))
        ensures
            (r.0@, r.1@) == self@.resolve(lookup),
    {
        match lookup {
            PlayerLookup::Failed => self.answer(Output::ServerError),
            PlayerLookup::Missing => self.answer(Output::Unauthorized),
            PlayerLookup::Found(solved) => {
                if is_completed(solved, self.problems.len()) {
                    self.answer(Output::Completed)
                } else {
                    let problem = solved as usize;
                    match handle_submit(
                        &self.problems,
                        problem,
                        self.code.as_str(),
                        self.language,
                    ) {
                        Ok((judge, request)) => (
                            Session {
                                problems: self.problems,
                                user_id: self.user_id,
                                code: self.code,
                                language: self.language,
                                problem,
                                judge: Some(judge),
                                mean: self.mean,
                                jitter: self.jitter,
                                phase: Phase::Judging,
                            },
                            Request::Compile(request),
                        ),
                        Err(verdict) => self.answer(verdict),
                    }
                }
            },
        }
    }

    /// What follows a step of the judge.
    pub fn judged(self, judge: Judge, step: Step) -> (r: (Session, Request))
        ensures
            (r.0@, r.1@) == self@.judged(judge@, step@),
    {
        match step {
            Step::Run(request) => (
                Session {
                    problems: self.problems,
                    user_id: self.user_id,
                    code: self.code,
                    language: self.language,
                    problem: self.problem,
                    judge: Some(judge),
                    mean: self.mean,
                    jitter: self.jitter,
                    phase: self.phase,
                },
                Request::Run(request),
            ),
            Step::Done(Output::Accepted(mean, jitter)) => (
                Session {
                    problems: self.problems,
                    user_id: self.user_id,
                    code: self.code,
                    language: self.language,
                    problem: self.problem,
                    judge: None,
                    mean,
                    jitter,
                    phase: Phase::AwaitingClock,
                },
                Request::Clock,
            ),
            Step::Done(verdict) => self.answer(verdict),
        }
    }

    /// What follows the reading of the clock, given the time stamp made of it.
    pub fn stamped(self, stamp: Option<String>) -> (r: (Session, Request))
        ensures
            (r.0@, r.1@) == self@.stamped(crate::config::text_view(stamp)),
    {
        match stamp {
            Some(now) if self.problem < usize::MAX => {
                let record = record_accepted(
                    self.user_id.as_str(),
                    self.problem,
                    self.language,
                    self.code.as_str(),
                    now.as_str(),
                );
                (
                    Session {
                        problems: self.problems,
                        user_id: self.user_id,
                        code: self.code,
                        language: self.language,
                        problem: self.problem,
                        judge: self.judge,
                        mean: self.mean,
                        jitter: self.jitter,
                        phase: Phase::AwaitingCommit,
                    },
                    Request::Commit(record),
                )
            },
            _ => self.answer(Output::ServerError),
        }
    }

    /// Takes what came back and gives the next state with what to do next.
    pub fn advance(self, reply: Reply) -> (r: (Session, Request))
        ensures
            (r.0@, r.1@) == self@.advance(reply),
    {
        match (self.phase, reply) {
            (Phase::AwaitingPlayer, Reply::Player(lookup)) => self.resolve(lookup),
            (Phase::Judging, Reply::Judge(event)) => {
                let Session { problems, user_id, code, language, problem, judge, mean, jitter, phase } =
                    self;
                let rest = Session {
                    problems,
                    user_id,
                    code,
                    language,
                    problem,
                    judge: None,
                    mean,
                    jitter,
                    phase,
                };
                match judge {
                    Some(judge) => {
                        let (next, step) = judge.advance(event);
                        rest.judged(next, step)
                    },
                    None => rest.answer(Output::ServerError),
                }
            },
            (Phase::AwaitingClock, Reply::Clock { secs, nanos }) => {
                let stamp = timestamp(secs, nanos);
                self.stamped(stamp)
            },
            (Phase::AwaitingCommit, Reply::Committed(done)) => {
                if done {
                    let verdict = Output::Accepted(self.mean, self.jitter);
                    self.answer(verdict)
                } else {
                    self.answer(Output::ServerError)
                }
            },
            (_, _) => self.answer(Output::ServerError),
        }
    }
}

} // verus!
