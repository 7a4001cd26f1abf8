use topsy_turvy::code::{Compilation, Execution};
use topsy_turvy::config::Config;
use topsy_turvy::languages::Language;
use topsy_turvy::progress::{
    current_problem, is_completed, record_accepted, timestamp, PlayerLookup, SqlValue, Statement,
};
use topsy_turvy::session::{
    authenticate, handle_submit_with_db, sender_of, Authorization, Reply, Request, Session,
};
use topsy_turvy::submit::{problems, Event, Submission};
use topsy_turvy::Output;

fn config() -> Config {
    Config::new("hunter2", "admin-token", "secret", "nonce").unwrap()
}

fn python(code: &str) -> Submission {
    Submission { code: code.to_string(), language: Language::Python }
}

fn text(s: &str) -> SqlValue {
    SqlValue::Text(s.to_string())
}

fn printed(stdout: &str, elapsed: u64) -> Reply {
    Reply::Judge(Event::Ran(Execution::Exited {
        success: true,
        stdout: stdout.as_bytes().to_vec(),
        stderr: Vec::new(),
        elapsed,
    }))
}

fn staged() -> Reply {
    Reply::Judge(Event::Compiled { dir: "/tmp/w".to_string(), outcome: Compilation::Staged })
}

/// A submission of `alice`, who has solved `solved` problems, up to the
/// answer of the store.
fn arrived(code: &str, solved: u64) -> (Session, Request) {
    let conf = config();
    let token = Authorization::Token(conf.encrypt("alice").unwrap());
    let (session, lookup) = handle_submit_with_db(&conf, &token, python(code), problems()).unwrap();
    assert_eq!(lookup, current_problem("alice"));
    session.advance(Reply::Player(PlayerLookup::Found(solved)))
}

/// A submission that passed every test, up to the request for the clock.
fn accepted() -> (Session, Request) {
    let (session, request) = arrived("n=int(input()); print(n*(n+1)//2)", 0);
    assert!(matches!(request, Request::Compile(_)));
    let (session, _) = session.advance(staged());
    let (session, _) = session.advance(printed("15\n", 10));
    let (session, _) = session.advance(printed("55\n", 20));
    let (session, _) = session.advance(printed("21\n", 30));
    session.advance(printed("2556\n", 100))
}

#[test]
fn an_accepted_submission_is_recorded_once_and_then_answered() {
    let (session, request) = accepted();
    assert_eq!(request, Request::Clock);
    let (session, request) = session.advance(Reply::Clock { secs: 1_431_648_000, nanos: 0 });
    assert_eq!(
        request,
        Request::Commit(vec![
            Statement {
                sql: "INSERT INTO submissions VALUES (?1, ?2, ?3, ?4, ?5)".to_string(),
                params: vec![
                    text("alice"),
                    SqlValue::Integer(0),
                    text("python"),
                    text("n=int(input()); print(n*(n+1)//2)"),
                    text("2015-05-15T00:00:00+00:00"),
                ],
            },
            Statement {
                sql: "UPDATE players SET solved = ?1 WHERE user_id = ?2".to_string(),
                params: vec![SqlValue::Integer(1), text("alice")],
            },
        ])
    );
    assert!(!session.is_finished());
    let (session, request) = session.advance(Reply::Committed(true));
    assert_eq!(request, Request::Done(Output::Accepted(40, 60)));
    assert!(session.is_finished());
    let (_, request) = session.advance(Reply::Committed(true));
    assert_eq!(request, Request::Done(Output::ServerError));
}

#[test]
fn a_commit_that_failed_is_a_server_error() {
    let (session, _) = accepted();
    let (session, _) = session.advance(Reply::Clock { secs: 0, nanos: 0 });
    let (session, request) = session.advance(Reply::Committed(false));
    assert_eq!(request, Request::Done(Output::ServerError));
    assert!(session.is_finished());
}

#[test]
fn a_clock_out_of_range_is_a_server_error() {
    let (session, _) = accepted();
    let (_, request) = session.advance(Reply::Clock { secs: i64::MAX, nanos: 0 });
    assert_eq!(request, Request::Done(Output::ServerError));
}

#[test]
fn nothing_is_recorded_for_a_program_that_does_not_compile() {
    let conf = config();
    let token = Authorization::Token(conf.encrypt("alice").unwrap());
    let payload = Submission { code: String::new(), language: Language::Rust };
    let (session, _) = handle_submit_with_db(&conf, &token, payload, problems()).unwrap();
    let (session, request) = session.advance(Reply::Player(PlayerLookup::Found(0)));
    match request {
        Request::Compile(compile) => {
            assert_eq!(compile.file_name, "main.rs");
            assert_eq!(compile.code, "");
            assert_eq!(compile.command.unwrap().program, "rustc");
        }
        other => panic!("{other:?}"),
    }
    let failed = Compilation::Exited { success: false, stderr: b"error: no main".to_vec() };
    let (session, request) =
        session.advance(Reply::Judge(Event::Compiled { dir: "/w".to_string(), outcome: failed }));
    assert_eq!(request, Request::Done(Output::CannotCompile("error: no main".to_string())));
    assert!(session.is_finished());
    let (_, request) = session.advance(Reply::Clock { secs: 0, nanos: 0 });
    assert_eq!(request, Request::Done(Output::ServerError));
}

#[test]
fn nothing_is_recorded_for_a_wrong_answer() {
    let (session, _) = arrived("input(); print(0)", 0);
    let (session, request) = session.advance(staged());
    assert!(matches!(request, Request::Run(_)));
    let (session, request) = session.advance(printed("0", 5));
    assert!(matches!(request, Request::Done(Output::WrongAnswer { .. })));
    assert!(session.is_finished());
}

#[test]
fn the_hidden_test_is_masked_in_the_answer() {
    let (session, _) = arrived("x", 0);
    let (session, _) = session.advance(staged());
    let (session, _) = session.advance(printed("15", 1));
    let (session, _) = session.advance(printed("55", 1));
    let (session, _) = session.advance(printed("21", 1));
    let (_, request) = session.advance(printed("0", 1));
    assert_eq!(request, Request::Done(Output::Hidden));
}

#[test]
fn a_player_who_is_done_is_told_so_and_nothing_runs() {
    for solved in [1, 2, u64::MAX] {
        let (session, request) = arrived("print(1)", solved);
        assert_eq!(request, Request::Done(Output::Completed));
        assert!(session.is_finished());
        let (_, request) = session.advance(staged());
        assert_eq!(request, Request::Done(Output::ServerError));
    }
}

#[test]
fn a_request_without_a_token_is_unauthorized() {
    let conf = config();
    let result = handle_submit_with_db(&conf, &Authorization::Missing, python("x"), problems());
    assert_eq!(result.err(), Some(Output::Unauthorized));
}

#[test]
fn a_token_of_another_service_is_unauthorized() {
    let conf = config();
    let other = Config::new("hunter2", "admin-token", "other secret", "nonce").unwrap();
    let token = Authorization::Token(other.encrypt("alice").unwrap());
    let result = handle_submit_with_db(&conf, &token, python("x"), problems());
    assert_eq!(result.err(), Some(Output::Unauthorized));
    let garbage = Authorization::Token("garbage".to_string());
    assert_eq!(authenticate(&conf, &garbage), Err(Output::Unauthorized));
}

#[test]
fn an_unreadable_authorization_is_a_server_error() {
    assert_eq!(authenticate(&config(), &Authorization::Unreadable), Err(Output::ServerError));
}

#[test]
fn a_token_of_a_player_who_does_not_exist_is_unauthorized() {
    let conf = config();
    let token = Authorization::Token(conf.encrypt("ghost").unwrap());
    assert_eq!(authenticate(&conf, &token), Ok("ghost".to_string()));
    let (session, lookup) = handle_submit_with_db(&conf, &token, python("x"), problems()).unwrap();
    assert_eq!(lookup.params, vec![text("ghost")]);
    let (session, request) = session.advance(Reply::Player(PlayerLookup::Missing));
    assert_eq!(request, Request::Done(Output::Unauthorized));
    assert!(session.is_finished());
}

#[test]
fn a_store_that_fails_is_a_server_error() {
    let (session, _) = Session::begin(problems(), "alice".to_string(), python("x"));
    let (_, request) = session.advance(Reply::Player(PlayerLookup::Failed));
    assert_eq!(request, Request::Done(Output::ServerError));
}

#[test]
fn a_reply_that_answers_no_request_is_a_server_error() {
    let (session, _) = Session::begin(problems(), "alice".to_string(), python("x"));
    let (session, request) = session.advance(Reply::Committed(true));
    assert_eq!(request, Request::Done(Output::ServerError));
    assert!(session.is_finished());
    let (session, _) = arrived("x", 0);
    let (_, request) = session.advance(Reply::Player(PlayerLookup::Found(0)));
    assert_eq!(request, Request::Done(Output::ServerError));
}

#[test]
fn sender_of_is_the_decrypted_id() {
    assert_eq!(sender_of(Some("alice".to_string())), Ok("alice".to_string()));
    assert_eq!(sender_of(None), Err(Output::Unauthorized));
}

#[test]
fn the_lookup_asks_for_one_player() {
    assert_eq!(
        current_problem("alice"),
        Statement {
            sql: "SELECT solved FROM players WHERE user_id = ?1 LIMIT 1".to_string(),
            params: vec![text("alice")],
        }
    );
}

#[test]
fn completion_is_reaching_the_number_of_problems() {
    assert!(!is_completed(0, 1));
    assert!(is_completed(1, 1));
    assert!(is_completed(2, 1));
    assert!(is_completed(0, 0));
    assert!(!is_completed(u64::MAX - 1, usize::MAX));
}

#[test]
fn the_record_bumps_the_count_by_one() {
    let record = record_accepted("bob", 41, Language::Cpp, "int main(){}", "2024-01-01T00:00:00+00:00");
    assert_eq!(record.len(), 2);
    assert_eq!(record[0].params[1], SqlValue::Integer(41));
    assert_eq!(record[0].params[2], text("cpp"));
    assert_eq!(record[1].params, vec![SqlValue::Integer(42), text("bob")]);
}

#[test]
fn time_stamps_are_rfc3339_in_utc() {
    assert_eq!(timestamp(0, 0).as_deref(), Some("1970-01-01T00:00:00+00:00"));
    assert_eq!(timestamp(1_431_648_000, 0).as_deref(), Some("2015-05-15T00:00:00+00:00"));
    assert_eq!(
        timestamp(1_700_000_000, 123_456_789).as_deref(),
        Some("2023-11-14T22:13:20.123456789+00:00")
    );
    assert_eq!(timestamp(-1, 0).as_deref(), Some("1969-12-31T23:59:59+00:00"));
    assert_eq!(timestamp(i64::MAX, 0), None);
    assert_eq!(timestamp(0, 2_000_000_000), None);
}
