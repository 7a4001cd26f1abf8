use topsy_turvy::admin::{
    add_player, add_player_with, authorize, authorized, change_password, change_password_with,
    get_players, get_submissions, is_auth, player_lookup, submission, AdminOutput, Existence,
    SubmissionInfo, SubmissionRow,
};
use topsy_turvy::auth::{handle_auth, issue, password_lookup, HashLookup, Player};
use topsy_turvy::config::Config;
use topsy_turvy::progress::{SqlValue, Statement};
use topsy_turvy::session::Authorization;
use topsy_turvy::Output;

fn config() -> Config {
    Config::new("hunter2", "admin-token", "secret", "nonce").unwrap()
}

fn player(user_id: &str, password: &str) -> Player {
    Player { user_id: user_id.to_string(), password: password.to_string() }
}

fn text(s: &str) -> SqlValue {
    SqlValue::Text(s.to_string())
}

fn row(user_id: &str, problem: Option<u64>) -> SubmissionRow {
    SubmissionRow {
        user_id: Some(user_id.to_string()),
        problem,
        language: Some("python".to_string()),
        code: Some("print(1)".to_string()),
        timestamp: Some("2024-01-01T00:00:00+00:00".to_string()),
    }
}

#[test]
fn a_login_with_the_right_password_gets_a_token_for_the_player() {
    let conf = config();
    let hash = Config::argon2_generate("pw").unwrap();
    let answer = handle_auth(&conf, &player("alice", "pw"), &HashLookup::Found(hash));
    match answer {
        Output::Token(token) => assert_eq!(conf.decrypt(&token).as_deref(), Some("alice")),
        other => panic!("{other:?}"),
    }
}

#[test]
fn a_login_with_the_wrong_password_is_unauthorized() {
    let conf = config();
    let hash = Config::argon2_generate("pw").unwrap();
    let lookup = HashLookup::Found(hash);
    assert_eq!(handle_auth(&conf, &player("alice", "pw2"), &lookup), Output::Unauthorized);
    let malformed = HashLookup::Found("plain".to_string());
    assert_eq!(handle_auth(&conf, &player("alice", "plain"), &malformed), Output::Unauthorized);
}

#[test]
fn a_login_of_an_unknown_player_is_unauthorized() {
    let conf = config();
    assert_eq!(handle_auth(&conf, &player("ghost", "pw"), &HashLookup::Missing), Output::Unauthorized);
    assert_eq!(handle_auth(&conf, &player("alice", "pw"), &HashLookup::Failed), Output::ServerError);
}

#[test]
fn issue_on_every_outcome() {
    assert_eq!(issue(Some(true), Some("t".to_string())), Output::Token("t".to_string()));
    assert_eq!(issue(Some(true), None), Output::ServerError);
    assert_eq!(issue(Some(false), Some("t".to_string())), Output::Unauthorized);
    assert_eq!(issue(None, Some("t".to_string())), Output::Unauthorized);
}

#[test]
fn the_lookups_ask_for_one_player() {
    assert_eq!(
        password_lookup("alice"),
        Statement {
            sql: "SELECT password_hash FROM players WHERE user_id = ?1 LIMIT 1".to_string(),
            params: vec![text("alice")],
        }
    );
    assert_eq!(
        player_lookup("alice"),
        Statement {
            sql: "SELECT user_id FROM players WHERE user_id = ?1".to_string(),
            params: vec![text("alice")],
        }
    );
}

#[test]
fn only_the_admin_token_authorizes() {
    let conf = config();
    assert!(is_auth(&Authorization::Token("admin-token".to_string()), &conf));
    assert!(!is_auth(&Authorization::Token("other".to_string()), &conf));
    assert!(!is_auth(&Authorization::Missing, &conf));
    assert!(!is_auth(&Authorization::Unreadable, &conf));
}

#[test]
fn the_admin_password_is_answered_with_the_token() {
    let conf = config();
    assert_eq!(authorize(&conf, "hunter2"), Output::Token("admin-token".to_string()));
    assert_eq!(authorize(&conf, "hunter"), Output::Unauthorized);
    assert_eq!(authorized(Some("t".to_string())), Output::Token("t".to_string()));
    assert_eq!(authorized(None), Output::Unauthorized);
}

#[test]
fn adding_a_player_on_every_outcome() {
    let action = add_player_with(true, "alice", Existence::Absent, Some("$hash".to_string()));
    assert_eq!(
        action.statement,
        Some(Statement {
            sql: "INSERT INTO players VALUES (?1, ?2, 0)".to_string(),
            params: vec![text("alice"), text("$hash")],
        })
    );
    assert_eq!(action.answer, AdminOutput::Success("Player added successfully".to_string()));
    let action = add_player_with(false, "alice", Existence::Absent, Some("$hash".to_string()));
    assert_eq!((action.statement, action.answer), (None, AdminOutput::Unauthorized));
    let action = add_player_with(true, "alice", Existence::Present, Some("$hash".to_string()));
    assert_eq!(action.statement, None);
    assert_eq!(action.answer, AdminOutput::Failure("Player already exists".to_string()));
    let action = add_player_with(true, "alice", Existence::Failed, Some("$hash".to_string()));
    assert_eq!(action.statement, None);
    assert_eq!(action.answer, AdminOutput::Failure("Database error".to_string()));
    let action = add_player_with(true, "alice", Existence::Absent, None);
    assert_eq!(action.statement, None);
    assert_eq!(action.answer, AdminOutput::Failure("Failed to hash password".to_string()));
}

#[test]
fn an_added_player_can_log_in() {
    let action = add_player(true, &player("alice", "pw"), Existence::Absent);
    let statement = action.statement.unwrap();
    assert_eq!(statement.params[0], text("alice"));
    match &statement.params[1] {
        SqlValue::Text(hash) => assert_eq!(Config::argon2_verify("pw", hash), Some(true)),
        other => panic!("{other:?}"),
    }
    let refused = add_player(false, &player("alice", "pw"), Existence::Absent);
    assert_eq!((refused.statement, refused.answer), (None, AdminOutput::Unauthorized));
}

#[test]
fn changing_a_password_on_every_outcome() {
    let action = change_password_with(true, "alice", Some("$hash".to_string()));
    assert_eq!(
        action.statement,
        Some(Statement {
            sql: "UPDATE players SET password_hash = ?1 WHERE user_id = ?2".to_string(),
            params: vec![text("$hash"), text("alice")],
        })
    );
    assert_eq!(action.answer, AdminOutput::Success("Password updated successfully".to_string()));
    let action = change_password_with(true, "alice", None);
    assert_eq!(action.statement, None);
    assert_eq!(action.answer, AdminOutput::Failure("Failed to hash new password".to_string()));
    let action = change_password_with(false, "alice", Some("$hash".to_string()));
    assert_eq!((action.statement, action.answer), (None, AdminOutput::Unauthorized));
    let action = change_password(true, &player("alice", "new"));
    match &action.statement.unwrap().params[0] {
        SqlValue::Text(hash) => assert_eq!(Config::argon2_verify("new", hash), Some(true)),
        other => panic!("{other:?}"),
    }
}

#[test]
fn players_that_cannot_be_read_are_left_out() {
    let rows = vec![Some("alice".to_string()), None, Some("bob".to_string())];
    assert_eq!(
        get_players(true, Some(rows)),
        AdminOutput::Players(vec!["alice".to_string(), "bob".to_string()])
    );
    assert_eq!(get_players(true, Some(Vec::new())), AdminOutput::Players(Vec::new()));
    assert_eq!(get_players(true, None), AdminOutput::Failure("Database error".to_string()));
    assert_eq!(get_players(false, Some(vec![Some("alice".to_string())])), AdminOutput::Unauthorized);
}

#[test]
fn submissions_that_cannot_be_read_are_left_out() {
    let mut broken = row("carol", Some(1));
    broken.code = None;
    let rows = vec![row("alice", Some(0)), row("bob", None), broken, row("dave", Some(3))];
    let expected = |user_id: &str, problem: u32| SubmissionInfo {
        user_id: user_id.to_string(),
        problem,
        language: "python".to_string(),
        code: "print(1)".to_string(),
        timestamp: "2024-01-01T00:00:00+00:00".to_string(),
    };
    assert_eq!(
        get_submissions(true, Some(rows)),
        AdminOutput::Submissions(vec![expected("alice", 0), expected("dave", 3)])
    );
    assert_eq!(get_submissions(true, None), AdminOutput::Failure("Database error".to_string()));
    assert_eq!(get_submissions(false, Some(Vec::new())), AdminOutput::Unauthorized);
}

#[test]
fn a_problem_index_is_taken_modulo_two_to_the_32() {
    assert_eq!(submission(&row("a", Some(0x1_0000_0005))).unwrap().problem, 5);
    assert_eq!(submission(&row("a", Some(u32::MAX as u64))).unwrap().problem, u32::MAX);
    assert_eq!(submission(&row("a", None)), None);
}
