use topsy_turvy::code::{Compilation, Execution};
use topsy_turvy::languages::Language;
use topsy_turvy::submit::{handle_submit, problems, submit, Event, Judge, Step};
use topsy_turvy::testcases::{RunRequest, TestCase, TestCases, RUN_TIMEOUT_SECS};
use topsy_turvy::Output;

fn case(input: &str, output: &str) -> TestCase {
    TestCase { input: input.to_string(), output: output.to_string() }
}

fn printed(stdout: &str, elapsed: u64) -> Execution {
    Execution::Exited {
        success: true,
        stdout: stdout.as_bytes().to_vec(),
        stderr: Vec::new(),
        elapsed,
    }
}

/// Starts the judging of a Python program on the first problem and reports
/// that it was staged.
fn staged(code: &str) -> (Judge, RunRequest) {
    let (judge, request) = handle_submit(&problems(), 0, code, Language::Python).unwrap();
    assert_eq!(request.file_name, "main.py");
    assert!(request.command.is_none());
    let (judge, step) =
        judge.advance(Event::Compiled { dir: "/tmp/w".to_string(), outcome: Compilation::Staged });
    match step {
        Step::Run(run) => (judge, run),
        Step::Done(other) => panic!("{other:?}"),
    }
}

fn run_of(step: Step) -> RunRequest {
    match step {
        Step::Run(run) => run,
        Step::Done(other) => panic!("{other:?}"),
    }
}

#[test]
fn the_first_problem_sums_to_n() {
    let all = problems();
    assert_eq!(all.len(), 1);
    assert_eq!(
        all[0],
        TestCases {
            public: vec![case("5\n", "15"), case("10\n", "55"), case("6\n", "21")],
            hidden: case("71\n", "2556"),
        }
    );
}

#[test]
fn a_problem_out_of_range_is_invalid() {
    assert_eq!(
        handle_submit(&problems(), 1, "", Language::Rust).err(),
        Some(Output::InvalidProblem(1))
    );
    assert_eq!(
        handle_submit(&Vec::new(), 0, "", Language::Rust).err(),
        Some(Output::InvalidProblem(0))
    );
}

#[test]
fn accepted_after_every_test_passed() {
    let (judge, run) = staged("n=int(input()); print(n*(n+1)//2)");
    assert_eq!(run.input, "5\n");
    assert_eq!(run.timeout_secs, 5);
    let (judge, step) = judge.advance(Event::Ran(printed("15\n", 10)));
    assert_eq!(run_of(step).input, "10\n");
    let (judge, step) = judge.advance(Event::Ran(printed("55\n", 20)));
    assert_eq!(run_of(step).input, "6\n");
    let (judge, step) = judge.advance(Event::Ran(printed("21\n", 30)));
    assert_eq!(run_of(step).input, "71\n");
    assert!(!judge.is_finished());
    let (judge, step) = judge.advance(Event::Ran(printed("2556\n", 100)));
    assert_eq!(step, Step::Done(Output::Accepted(40, 60)));
    assert!(judge.is_finished());
}

#[test]
fn a_runtime_error_ends_the_judging() {
    let (judge, _) = staged("raise SystemExit(1)");
    let failed = Execution::Exited {
        success: false,
        stdout: Vec::new(),
        stderr: b"Traceback".to_vec(),
        elapsed: 5,
    };
    let (judge, step) = judge.advance(Event::Ran(failed));
    assert_eq!(
        step,
        Step::Done(Output::RuntimeError { stdout: String::new(), stderr: "Traceback".to_string() })
    );
    assert!(judge.is_finished());
}

#[test]
fn a_timeout_names_the_first_public_test() {
    let (judge, _) = staged("while True: pass");
    let (_, step) = judge.advance(Event::Ran(Execution::TimedOut));
    assert_eq!(step, Step::Done(Output::Timeout(case("5\n", "15"))));
}

#[test]
fn a_wrong_answer_on_a_public_test_is_shown_in_full() {
    let (judge, _) = staged("input(); print(0)");
    let (judge, step) = judge.advance(Event::Ran(printed("0", 5)));
    assert_eq!(
        step,
        Step::Done(Output::WrongAnswer {
            test: case("5\n", "15"),
            stdout: "0".to_string(),
            stderr: String::new(),
        })
    );
    let (_, step) = judge.advance(Event::Ran(printed("55\n", 5)));
    assert_eq!(step, Step::Done(Output::ServerError));
}

#[test]
fn the_second_public_test_failing_stops_before_the_third() {
    let (judge, _) = staged("print(15)");
    let (judge, step) = judge.advance(Event::Ran(printed("15\n", 5)));
    assert_eq!(run_of(step).input, "10\n");
    let (judge, step) = judge.advance(Event::Ran(printed("15\n", 5)));
    assert_eq!(
        step,
        Step::Done(Output::WrongAnswer {
            test: case("10\n", "55"),
            stdout: "15\n".to_string(),
            stderr: String::new(),
        })
    );
    assert!(judge.is_finished());
}

#[test]
fn a_wrong_answer_on_the_hidden_test_is_masked() {
    let (judge, request) = handle_submit(&problems(), 0, "int main(){}", Language::Cpp).unwrap();
    assert_eq!(request.file_name, "main.cpp");
    let compiled = Compilation::Exited { success: true, stderr: Vec::new() };
    let (judge, _) = judge.advance(Event::Compiled { dir: "/w".to_string(), outcome: compiled });
    let (judge, _) = judge.advance(Event::Ran(printed("15\n", 1)));
    let (judge, _) = judge.advance(Event::Ran(printed("55\n", 1)));
    let (judge, step) = judge.advance(Event::Ran(printed("21\n", 1)));
    assert_eq!(run_of(step).input, "71\n");
    let (_, step) = judge.advance(Event::Ran(printed("secret 0\n", 1)));
    assert_eq!(step, Step::Done(Output::Hidden));
}

#[test]
fn a_timeout_on_the_hidden_test_is_not_masked() {
    let (judge, _) = staged("print(1)");
    let (judge, _) = judge.advance(Event::Ran(printed("15", 1)));
    let (judge, _) = judge.advance(Event::Ran(printed("55", 1)));
    let (judge, _) = judge.advance(Event::Ran(printed("21", 1)));
    let (_, step) = judge.advance(Event::Ran(Execution::TimedOut));
    assert_eq!(step, Step::Done(Output::Timeout(case("71\n", "2556"))));
}

#[test]
fn an_event_that_answers_no_request_is_a_server_error() {
    let (judge, _) = handle_submit(&problems(), 0, "x", Language::Python).unwrap();
    let (judge, step) = judge.advance(Event::Ran(printed("15", 1)));
    assert_eq!(step, Step::Done(Output::ServerError));
    assert!(judge.is_finished());
    let (judge, _) = staged("x");
    let (_, step) = judge
        .advance(Event::Compiled { dir: "/tmp/w".to_string(), outcome: Compilation::Staged });
    assert_eq!(step, Step::Done(Output::ServerError));
}

#[test]
fn runs_are_jailed_in_the_workspace() {
    let (_, run) = staged("print(1)");
    assert_eq!(run.command.program, "nsjail");
    assert_eq!(
        run.command.args,
        [
            "-Mo", "-q", "--rlimit_as", "512", "-t", "6", "--disable_proc", "--iface_no_lo", "-c",
            "/tmp/w", "-D", "/", "--user", "99999", "--group", "99999", "--", "python3", "main.py",
        ]
    );
    assert_eq!(RUN_TIMEOUT_SECS, 5);
    let rust = TestCase::command(&Language::Rust, "/w");
    assert_eq!(rust.args[9], "/w");
    assert_eq!(rust.args[17..], ["./main"]);
    let request = case("in", "out").sandbox("/w", &Language::Java);
    assert_eq!(request.input, "in");
    assert_eq!(request.command.args[17..], ["java", "Main"]);
}

#[test]
fn a_problem_without_public_tests_runs_the_hidden_one() {
    let only_hidden = vec![TestCases { public: Vec::new(), hidden: case("1\n", "1") }];
    let (judge, _) = handle_submit(&only_hidden, 0, "print(1)", Language::Python).unwrap();
    let (judge, step) =
        judge.advance(Event::Compiled { dir: "/w".to_string(), outcome: Compilation::Staged });
    assert_eq!(run_of(step).input, "1\n");
    let (_, step) = judge.advance(Event::Ran(printed("2\n", 9)));
    assert_eq!(step, Step::Done(Output::Hidden));
}

#[test]
fn judging_all_runs_at_once_takes_the_first_failure() {
    let tests = &problems()[0];
    let staged = Compilation::Staged;
    let all_pass =
        vec![printed("15", 10), printed("55", 20), printed("21", 30), printed("2556", 100)];
    assert_eq!(submit(tests, Language::Python, &staged, &all_pass), Output::Accepted(40, 60));
    let second_and_hidden_fail =
        vec![printed("15", 10), Execution::TimedOut, printed("21", 30), printed("0", 100)];
    assert_eq!(
        submit(tests, Language::Python, &staged, &second_and_hidden_fail),
        Output::Timeout(case("10\n", "55"))
    );
    let hidden_fails =
        vec![printed("15", 10), printed("55", 20), printed("21", 30), printed("0", 100)];
    assert_eq!(submit(tests, Language::Python, &staged, &hidden_fails), Output::Hidden);
    let missing = vec![printed("15", 10)];
    assert_eq!(submit(tests, Language::Python, &staged, &missing), Output::ServerError);
    assert_eq!(
        submit(tests, Language::Rust, &Compilation::Staged, &all_pass),
        Output::ServerError
    );
    let broken = Compilation::Exited { success: false, stderr: b"no main".to_vec() };
    assert_eq!(
        submit(tests, Language::Rust, &broken, &all_pass),
        Output::CannotCompile("no main".to_string())
    );
}

#[test]
fn one_by_one_and_all_at_once_agree() {
    let runs = vec![printed("15", 3), printed("55", 4), Execution::Failed, printed("2556", 5)];
    let (mut judge, _) = staged("x");
    let mut verdict = None;
    for run in runs.iter() {
        let copy = match run {
            Execution::Failed => Execution::Failed,
            Execution::TimedOut => Execution::TimedOut,
            Execution::Exited { success, stdout, stderr, elapsed } => Execution::Exited {
                success: *success,
                stdout: stdout.clone(),
                stderr: stderr.clone(),
                elapsed: *elapsed,
            },
        };
        let (next, step) = judge.advance(Event::Ran(copy));
        judge = next;
        if let Step::Done(v) = step {
            verdict = Some(v);
            break;
        }
    }
    assert_eq!(verdict, Some(submit(&problems()[0], Language::Python, &Compilation::Staged, &runs)));
    assert_eq!(verdict, Some(Output::ServerError));
}
