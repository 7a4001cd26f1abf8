//! Judging a submission: the order of the tests, the verdict that ends the
//! judging, the masking of the hidden test, and the player's progress that an
//! accepted submission advances.

use crate::code::{compile_code, spec_compile_code, spec_test_code, test_code, Compilation, Execution};
use crate::languages::{CompileRequest, CompileRequestView, Language};
pub use crate::testcases::{TestCase, TestCases};
use crate::testcases::{RunRequest, RunRequestView, TestCasesView};
use crate::timing::{jitter, mean, mean_and_jitter};
use crate::{result_view, Output, OutputView};
use vstd::prelude::*;

verus! {

/// What a player sends in: the program and its language. The problem is not
/// the player's choice.
#[derive(Debug, PartialEq, Eq)]
pub struct Submission {
    pub code: String,
    pub language: Language,
}

/// The problems that this build knows, by index.
pub open spec fn builtin_problems() -> Seq<TestCasesView> {
    seq![
        TestCasesView {
            public: seq![
                crate::testcases::TestCaseView { input: "5\n"@, output: "15"@ },
                crate::testcases::TestCaseView { input: "10\n"@, output: "55"@ },
                crate::testcases::TestCaseView { input: "6\n"@, output: "21"@ },
            ],
            hidden: crate::testcases::TestCaseView { input: "71\n"@, output: "2556"@ },
        },
    ]
}

/// The values of a vector of problems.
pub open spec fn problem_views(v: Seq<TestCases>) -> Seq<TestCasesView> {
    Seq::new(v.len(), |i: int| v[i]@)
}

fn test_case(input: &str, output: &str) -> (r: TestCase)
    ensures
        r@.input == input@,
        r@.output == output@,
{
    TestCase { input: input.to_owned(), output: output.to_owned() }
}

/// The problem set, made once when the service starts.
pub fn problems() -> (r: Vec<TestCases>)
    ensures
        problem_views(r@) == builtin_problems(),
{
    let mut public: Vec<TestCase> = Vec::new();
    public.push(test_case("5\n", "15"));
    public.push(test_case("10\n", "55"));
    public.push(test_case("6\n", "21"));
    let sum_to_n = TestCases { public, hidden: test_case("71\n", "2556") };
    assert(sum_to_n@.public =~= builtin_problems()[0].public);
    let mut all: Vec<TestCases> = Vec::new();
    all.push(sum_to_n);
    assert(problem_views(all@) =~= builtin_problems());
    all
}

/// Where the judging of one submission stands.
#[derive(Clone, Copy, Debug, PartialEq, Eq, Structural)]
pub enum Stage {
    /// The program is being prepared.
    Compiling,
    /// A test is being run: the one whose position is the number of
    /// durations measured so far.
    Running,
    /// The verdict has been given.
    Finished,
}

/// What came back from the work that the judge asked for.
#[derive(Debug, PartialEq, Eq)]
pub enum Event {
    /// The program was prepared in the workspace `dir`, or could not be.
    Compiled { dir: String, outcome: Compilation },
    /// The test that was asked for has been run.
    Ran(Execution),
}

/// What the judge asks for next, or its verdict.
#[derive(Debug, PartialEq, Eq)]
pub enum Step {
    Run(RunRequest),
    Done(Output),
}

/// The mathematical value of a [`Step`].
pub enum StepView {
    Run(RunRequestView),
    Done(OutputView),
}

impl View for Step {
    type V = StepView;

    open spec fn view(&self) -> StepView {
        match self {
            Step::Run(request) => StepView::Run(request@),
            Step::Done(verdict) => StepView::Done(verdict@),
        }
    }
}

/// The judging of one submission: a state that takes what was observed and
/// says what to do next.
pub struct Judge {
    tests: TestCases,
    language: Language,
    dir: String,
    stage: Stage,
    durations: Vec<u64>,
}

/// The mathematical value of a [`Judge`].
pub struct JudgeView {
    pub tests: TestCasesView,
    pub language: Language,
    pub dir: Seq<char>,
    pub stage: Stage,
    pub durations: Seq<u64>,
}

impl View for Judge {
    type V = JudgeView;

    closed spec fn view(&self) -> JudgeView {
        JudgeView {
            tests: self.tests@,
            language: self.language,
            dir: self.dir@,
            stage: self.stage,
            durations: self.durations@,
        }
    }
}

impl JudgeView {
    /// The state after the verdict.
    pub open spec fn finished(self) -> JudgeView {
        JudgeView { stage: Stage::Finished, ..self }
    }

    /// The verdict on the test at position `k`, as it is reported: the hidden
    /// test's wrong answer is masked.
    pub open spec fn reported(self, k: int, verdict: OutputView) -> OutputView {
        if k == self.tests.public.len() {
            verdict.masked()
        } else {
            verdict
        }
    }

    /// The next state and what is asked for next, given what was observed.
    ///
    /// After preparation the tests run in their order, the public ones first
    /// and the hidden one last. The first run that does not pass ends the
    /// judging with its verdict, and no further test is asked for. When the
    /// hidden test has passed, the submission is accepted with the mean and
    /// the jitter of all durations. An event that answers no request ends the
    /// judging with `ServerError`.
    pub open spec fn advance(self, event: Event) -> (JudgeView, StepView) {
        match (self.stage, event) {
            (Stage::Compiling, Event::Compiled { dir, outcome }) => match spec_compile_code(
                self.language,
                outcome,
            ) {
                Err(verdict) => (self.finished(), StepView::Done(verdict)),
                Ok(_) => (
                    JudgeView {
                        dir: dir@,
                        stage: Stage::Running,
                        durations: Seq::empty(),
                        ..self
                    },
                    StepView::Run(self.tests.at(0).sandbox(dir@, self.language)),
                ),
            },
            (Stage::Running, Event::Ran(outcome)) => {
                let k = self.durations.len() as int;
                if k > self.tests.public.len() {
                    (self.finished(), StepView::Done(OutputView::ServerError))
                } else {
                    match spec_test_code(self.tests.at(k), outcome) {
                        Err(verdict) => (
                            self.finished(),
                            StepView::Done(self.reported(k, verdict)),
                        ),
                        Ok(elapsed) => {
                            let durations = self.durations.push(elapsed);
                            if k == self.tests.public.len() {
                                (
                                    JudgeView { durations, stage: Stage::Finished, ..self },
                                    StepView::Done(
                                        OutputView::Accepted(
                                            mean(durations) as u64,
                                            jitter(durations) as u64,
                                        ),
                                    ),
                                )
                            } else {
                                (
                                    JudgeView { durations, ..self },
                                    StepView::Run(
                                        self.tests.at(k + 1).sandbox(self.dir, self.language),
                                    ),
                                )
                            }
                        },
                    }
                }
            },
            _ => (self.finished(), StepView::Done(OutputView::ServerError)),
        }
    }
}

impl JudgeView {
    /// What the judge says to each of `events`, fed to it in turn.
    pub open spec fn run(self, events: Seq<Event>) -> Seq<StepView>
        decreases events.len(),
    {
        if events.len() == 0 {
            Seq::empty()
        } else {
            let (next, step) = self.advance(events[0]);
            seq![step] + next.run(events.drop_first())
        }
    }
}

/// After the verdict the judge asks for no run, whatever it is fed.
pub proof fn lemma_verdict_is_final(judge: JudgeView, events: Seq<Event>)
    requires
        judge.stage == Stage::Finished,
    ensures
        judge.run(events).len() == events.len(),
        forall|i: int| 0 <= i < events.len() ==> judge.run(events)[i] is Done,
    decreases events.len(),
{
    if events.len() > 0 {
        let (next, step) = judge.advance(events[0]);
        lemma_verdict_is_final(next, events.drop_first());
        assert forall|i: int| 0 <= i < events.len() implies judge.run(events)[i] is Done by {
            if i > 0 {
                assert(judge.run(events)[i] == next.run(events.drop_first())[i - 1]);
            }
        }
    }
}

/// A public test that does not pass ends the judging with its own verdict,
/// and neither a later test nor the hidden one is run.
pub proof fn lemma_public_failure_short_circuits(
    judge: JudgeView,
    outcome: Execution,
    later: Seq<Event>,
)
    requires
        judge.stage == Stage::Running,
        judge.durations.len() < judge.tests.public.len(),
        spec_test_code(judge.tests.public[judge.durations.len() as int], outcome) is Err,
    ensures
        judge.advance(Event::Ran(outcome)).1 == StepView::Done(
            spec_test_code(judge.tests.public[judge.durations.len() as int], outcome)->Err_0,
        ),
        forall|i: int|
            0 <= i < later.len() ==> judge.advance(Event::Ran(outcome)).0.run(later)[i] is Done,
{
    lemma_verdict_is_final(judge.advance(Event::Ran(outcome)).0, later);
}

/// A wrong answer on the hidden test is reported as `Hidden`, which carries
/// nothing of what the test holds or of what the program printed. Any other
/// failure on the hidden test is reported as it is.
pub proof fn lemma_hidden_failure_is_masked(judge: JudgeView, outcome: Execution)
    requires
        judge.stage == Stage::Running,
        judge.durations.len() == judge.tests.public.len(),
        spec_test_code(judge.tests.hidden, outcome) is Err,
    ensures
        spec_test_code(judge.tests.hidden, outcome)->Err_0 is WrongAnswer ==> judge.advance(
            Event::Ran(outcome),
        ).1 == StepView::Done(OutputView::Hidden),
        !(spec_test_code(judge.tests.hidden, outcome)->Err_0 is WrongAnswer) ==> judge.advance(
            Event::Ran(outcome),
        ).1 == StepView::Done(spec_test_code(judge.tests.hidden, outcome)->Err_0),
{
}

/// The verdict on the runs from position `k` on, all of them at hand, after
/// the runs before `k` passed with `durations`: the first run in the order of
/// the tests that did not pass decides, whatever came of the runs after it.
pub open spec fn judge_runs(
    tests: TestCasesView,
    runs: Seq<Execution>,
    k: int,
    durations: Seq<u64>,
) -> OutputView
    decreases tests.count() - k,
{
    if k < 0 || k >= tests.count() || k >= runs.len() {
        OutputView::ServerError
    } else {
        match spec_test_code(tests.at(k), runs[k]) {
            Err(verdict) => if k == tests.public.len() {
                verdict.masked()
            } else {
                verdict
            },
            Ok(elapsed) => if k == tests.public.len() {
                OutputView::Accepted(
                    mean(durations.push(elapsed)) as u64,
                    jitter(durations.push(elapsed)) as u64,
                )
            } else {
                judge_runs(tests, runs, k + 1, durations.push(elapsed))
            },
        }
    }
}

/// The verdict on a program whose tests were all run at once: a preparation
/// that failed decides; else the runs do, in the order of the tests. A run
/// that is missing is the server's failure.
pub open spec fn spec_submit(
    tests: TestCasesView,
    language: Language,
    compiled: Compilation,
    runs: Seq<Execution>,
) -> OutputView {
    match spec_compile_code(language, compiled) {
        Err(verdict) => verdict,
        Ok(_) => judge_runs(tests, runs, 0, Seq::empty()),
    }
}

/// Judges a program whose tests were all run at once, `runs[k]` being the
/// run of the test at position `k`.
pub fn submit(tests: &TestCases, language: Language, compiled: &Compilation, runs: &Vec<Execution>)
    -> (r: Output)
    ensures
        r@ == spec_submit(tests@, language, *compiled, runs@),
{
    if let Err(verdict) = compile_code(language, compiled) {
        return verdict;
    }
    let mut durations: Vec<u64> = Vec::new();
    let mut k: usize = 0;
    loop
        invariant
            k == durations.len(),
            k <= tests.public.len(),
            tests@.public.len() == tests.public.len(),
            spec_submit(tests@, language, *compiled, runs@) == judge_runs(
                tests@,
                runs@,
                k as int,
                durations@,
            ),
        decreases tests.public.len() - k,
    {
        if k >= runs.len() {
            return Output::ServerError;
        }
        match test_code(tests.at(k), &runs[k]) {
            Err(verdict) => {
                return if k == tests.public.len() {
                    verdict.masked()
                } else {
                    verdict
                };
            },
            Ok(elapsed) => {
                durations.push(elapsed);
                if k == tests.public.len() {
                    return match mean_and_jitter(&durations) {
                        Some((m, j)) => Output::Accepted(m, j),
                        None => Output::ServerError,
                    };
                }
                k += 1;
            },
        }
    }
}

/// The first verdict among the steps, if there is one.
pub open spec fn first_verdict(steps: Seq<StepView>) -> Option<OutputView>
    decreases steps.len(),
{
    if steps.len() == 0 {
        None
    } else {
        match steps[0] {
            StepView::Done(verdict) => Some(verdict),
            StepView::Run(_) => first_verdict(steps.drop_first()),
        }
    }
}

/// The runs from position `k` on, as the events that report them one by one.
pub open spec fn reports(tests: TestCasesView, runs: Seq<Execution>, k: int) -> Seq<Event> {
    Seq::new((tests.count() - k) as nat, |i: int| Event::Ran(runs[k + i]))
}

/// Running the tests one after the other gives the verdict that judging all
/// the runs at once gives: what came of the runs after the first failure
/// does not matter.
pub proof fn lemma_one_by_one_agrees(judge: JudgeView, runs: Seq<Execution>)
    requires
        judge.stage == Stage::Running,
        judge.durations.len() <= judge.tests.public.len(),
        runs.len() >= judge.tests.count(),
    ensures
        first_verdict(judge.run(reports(judge.tests, runs, judge.durations.len() as int))) == Some(
            judge_runs(judge.tests, runs, judge.durations.len() as int, judge.durations),
        ),
    decreases judge.tests.public.len() - judge.durations.len(),
{
    let k = judge.durations.len() as int;
    let events = reports(judge.tests, runs, k);
    let (next, step) = judge.advance(events[0]);
    let steps = judge.run(events);
    assert(steps[0] == step);
    assert(steps.drop_first() =~= next.run(events.drop_first()));
    if step is Run {
        assert(events.drop_first() =~= reports(next.tests, runs, k + 1));
        lemma_one_by_one_agrees(next, runs);
    }
}

/// The start of the judging of `code` on the problem at `problem`.
pub open spec fn spec_handle_submit(
    problems: Seq<TestCasesView>,
    problem: usize,
    code: Seq<char>,
    language: Language,
) -> Result<(JudgeView, CompileRequestView), OutputView> {
    if problem < problems.len() {
        Ok(
            (
                JudgeView {
                    tests: problems[problem as int],
                    language,
                    dir: Seq::empty(),
                    stage: Stage::Compiling,
                    durations: Seq::empty(),
                },
                language.spec_compile(code),
            ),
        )
    } else {
        Err(OutputView::InvalidProblem(problem))
    }
}

/// Starts the judging of `code` on the problem at index `problem`: looks the
/// problem up and asks for the program to be prepared. An index outside the
/// problem set is `InvalidProblem`.
pub fn handle_submit(
    problems: &Vec<TestCases>,
    problem: usize,
    code: &str,
    language: Language,
) -> (r: Result<(Judge, CompileRequest), Output>)
    ensures
        match r {
            Ok((judge, request)) => spec_handle_submit(
                problem_views(problems@),
                problem,
                code@,
                language,
            ) == Ok::<(JudgeView, CompileRequestView), OutputView>((judge@, request@)),
            Err(verdict) => spec_handle_submit(problem_views(problems@), problem, code@, language)
                == Err::<(JudgeView, CompileRequestView), OutputView>(verdict@),
        },
{
    if problem < problems.len() {
        let judge = Judge {
            tests: problems[problem].clone(),
            language,
            dir: String::new(),
            stage: Stage::Compiling,
            durations: Vec::new(),
        };
        Ok((judge, language.compile(code)))
    } else {
        Err(Output::InvalidProblem(problem))
    }
}

impl Judge {
    /// Whether the verdict has been given.
    pub fn is_finished(&self) -> (r: bool)
        ensures
            r == (self@.stage == Stage::Finished),
    {
        matches!(self.stage, Stage::Finished)
    }

    fn finish(self, verdict: Output) -> (r: (Judge, Step))
        ensures
            r.0@ == self@.finished(),
            r.1@ == StepView::Done(verdict@),
    {
        (
            Judge {
                tests: self.tests,
                language: self.language,
                dir: self.dir,
                stage: Stage::Finished,
                durations: self.durations,
            },
            Step::Done(verdict),
        )
    }

    /// Takes what was observed and gives the next state with what to do next.
    pub fn advance(self, event: Event) -> (r: (Judge, Step))
        ensures
            (r.0@, r.1@) == self@.advance(event),
    {
        match (self.stage, event) {
            (Stage::Compiling, Event::Compiled { dir, outcome }) => {
                match compile_code(self.language, &outcome) {
                    Err(verdict) => self.finish(verdict),
                    Ok(_) => {
                        let request = self.tests.at(0).sandbox(dir.as_str(), &self.language);
                        (
                            Judge {
                                tests: self.tests,
                                language: self.language,
                                dir,
                                stage: Stage::Running,
                                durations: Vec::new(),
                            },
                            Step::Run(request),
                        )
                    },
                }
            },
            (Stage::Running, Event::Ran(outcome)) => {
                let k = self.durations.len();
                if k > self.tests.public.len() {
                    self.finish(Output::ServerError)
                } else {
                    match test_code(self.tests.at(k), &outcome) {
                        Err(verdict) => {
                            let reported = if k == self.tests.public.len() {
                                verdict.masked()
                            } else {
                                verdict
                            };
                            self.finish(reported)
                        },
                        Ok(elapsed) => {
                            let mut durations = self.durations;
                            durations.push(elapsed);
                            if k == self.tests.public.len() {
                                let verdict = match mean_and_jitter(&durations) {
                                    Some((m, j)) => Output::Accepted(m, j),
                                    None => Output::ServerError,
                                };
                                (
                                    Judge {
                                        tests: self.tests,
                                        language: self.language,
                                        dir: self.dir,
                                        stage: Stage::Finished,
                                        durations,
                                    },
                                    Step::Done(verdict),
                                )
                            } else {
                                let request = self.tests.at(k + 1).sandbox(
                                    self.dir.as_str(),
                                    &self.language,
                                );
                                (
                                    Judge {
                                        tests: self.tests,
                                        language: self.language,
                                        dir: self.dir,
                                        stage: Stage::Running,
                                        durations,
                                    },
                                    Step::Run(request),
                                )
                            }
                        },
                    }
                }
            },
            (_, _) => self.finish(Output::ServerError),
        }
    }
}

} // verus!
