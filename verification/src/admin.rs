//! The admin's requests: getting the admin token, adding a player, changing
//! a password, and listing players and submissions.

pub use crate::auth::Player;
use crate::config::{argon2_outcome, text_view, Config, ConfigView};
use crate::progress::{SqlValue, SqlValueView, Statement, StatementView};
use crate::session::Authorization;
use crate::{Output, OutputView};
use vstd::prelude::*;

verus! {

/// One logged submission.
#[derive(Debug, PartialEq, Eq)]
pub struct SubmissionInfo {
    pub user_id: String,
    pub problem: u32,
    pub language: String,
    pub code: String,
    pub timestamp: String,
}

/// The mathematical value of a [`SubmissionInfo`].
pub struct SubmissionInfoView {
    pub user_id: Seq<char>,
    pub problem: u32,
    pub language: Seq<char>,
    pub code: Seq<char>,
    pub timestamp: Seq<char>,
}

impl View for SubmissionInfo {
    type V = SubmissionInfoView;

    open spec fn view(&self) -> SubmissionInfoView {
        SubmissionInfoView {
            user_id: self.user_id@,
            problem: self.problem,
            language: self.language@,
            code: self.code@,
            timestamp: self.timestamp@,
        }
    }
}

/// The answer to an admin's request.
#[derive(Debug, PartialEq, Eq)]
pub enum AdminOutput {
    Success(String),
    Failure(String),
    Unauthorized,
    Players(Vec<String>),
    Submissions(Vec<SubmissionInfo>),
}

/// The mathematical value of an [`AdminOutput`].
pub enum AdminOutputView {
    Success(Seq<char>),
    Failure(Seq<char>),
    Unauthorized,
    Players(Seq<Seq<char>>),
    Submissions(Seq<SubmissionInfoView>),
}

impl View for AdminOutput {
    type V = AdminOutputView;

    open spec fn view(&self) -> AdminOutputView {
        match self {
            AdminOutput::Success(text) => AdminOutputView::Success(text@),
            AdminOutput::Failure(text) => AdminOutputView::Failure(text@),
            AdminOutput::Unauthorized => AdminOutputView::Unauthorized,
            AdminOutput::Players(players) => AdminOutputView::Players(
                Seq::new(players@.len(), |i: int| players@[i]@),
            ),
            AdminOutput::Submissions(submissions) => AdminOutputView::Submissions(
                Seq::new(submissions@.len(), |i: int| submissions@[i]@),
            ),
        }
    }
}

/// Whether the request is the admin's: it carries the admin token.
pub open spec fn spec_is_auth(authorization: Authorization, conf: ConfigView) -> bool {
    authorization matches Authorization::Token(token) && token@ == conf.admin_token
}

/// Whether the request is the admin's.
pub fn is_auth(authorization: &Authorization, conf: &Config) -> (r: bool)
    ensures
        r == spec_is_auth(*authorization, conf@),
{
    match authorization {
        Authorization::Token(token) => conf.verify_admin_token(token.as_str()),
        _ => false,
    }
}

/// The answer to a request for the admin token, given the token that the
/// password obtained.
pub open spec fn spec_authorized(token: Option<Seq<char>>) -> OutputView {
    match token {
        Some(token) => OutputView::Token(token),
        None => OutputView::Unauthorized,
    }
}

/// The answer to a request for the admin token, given what the password obtained.
pub fn authorized(token: Option<String>) -> (r: Output)
    ensures
        r@ == spec_authorized(text_view(token)),
{
    match token {
        Some(token) => Output::Token(token),
        None => Output::Unauthorized,
    }
}

/// Answers a request for the admin token: the token, if `password` verifies
/// against the admin's hash.
pub fn authorize(conf: &Config, password: &str) -> (r: Output)
    ensures
        r@ == spec_authorized(conf@.grant(argon2_outcome(password@, conf@.admin_hash))),
{
    authorized(conf.get_admin_token(password))
}

/// What the store said of whether a player exists.
#[derive(Clone, Copy, Debug, PartialEq, Eq, Structural)]
pub enum Existence {
    /// The store could not be asked.
    Failed,
    /// There is such a player.
    Present,
    /// There is none, as far as the store could say.
    Absent,
}

/// What is to be done for an admin's request, and its answer.
#[derive(Debug, PartialEq, Eq)]
pub struct Action {
    /// The statement to run, if any. Its failure does not change the answer.
    pub statement: Option<Statement>,
    pub answer: AdminOutput,
}

/// The mathematical value of an [`Action`].
pub struct ActionView {
    pub statement: Option<StatementView>,
    pub answer: AdminOutputView,
}

impl View for Action {
    type V = ActionView;

    open spec fn view(&self) -> ActionView {
        ActionView {
            statement: match self.statement {
                Some(statement) => Some(statement@),
                None => None,
            },
            answer: self.answer@,
        }
    }
}

/// An answer without anything to run.
pub open spec fn refusal(answer: AdminOutputView) -> ActionView {
    ActionView { statement: None, answer }
}

fn refuse(answer: AdminOutput) -> (r: Action)
    ensures
        r@ == refusal(answer@),
{
    Action { statement: None, answer }
}

fn failure(text: &str) -> (r: AdminOutput)
    ensures
        r@ == AdminOutputView::Failure(text@),
{
    AdminOutput::Failure(text.to_owned())
}

fn statement(sql: &str, first: SqlValue, second: SqlValue) -> (r: Statement)
    ensures
        r@ == (StatementView { sql: sql@, params: seq![first@, second@] }),
{
    let mut params: Vec<SqlValue> = Vec::new();
    params.push(first);
    params.push(second);
    let r = Statement { sql: sql.to_owned(), params };
    assert(r@.params =~= seq![first@, second@]);
    r
}

/// The lookup that says whether `user_id` exists.
pub open spec fn spec_player_lookup(user_id: Seq<char>) -> StatementView {
    StatementView {
        sql: "SELECT user_id FROM players WHERE user_id = ?1"@,
        params: seq![SqlValueView::Text(user_id)],
    }
}

/// The lookup that says whether `user_id` exists.
pub fn player_lookup(user_id: &str) -> (r: Statement)
    ensures
        r@ == spec_player_lookup(user_id@),
{
    let mut params: Vec<SqlValue> = Vec::new();
    params.push(SqlValue::Text(user_id.to_owned()));
    let r = Statement { sql: "SELECT user_id FROM players WHERE user_id = ?1".to_owned(), params };
    assert(r@.params =~= spec_player_lookup(user_id@).params);
    r
}

/// Adding a player, given whether the request is the admin's, what the store
/// said of the player and the hash made of the password: only the admin adds
/// players; a player is added once; the new player has solved nothing.
pub open spec fn spec_add_player(
    authorized: bool,
    user_id: Seq<char>,
    existence: Existence,
    hashed: Option<Seq<char>>,
) -> ActionView {
    if !authorized {
        refusal(AdminOutputView::Unauthorized)
    } else if existence == Existence::Present {
        refusal(AdminOutputView::Failure("Player already exists"@))
    } else if existence == Existence::Failed {
        refusal(AdminOutputView::Failure("Database error"@))
    } else {
        match hashed {
            None => refusal(AdminOutputView::Failure("Failed to hash password"@)),
            Some(hash) => ActionView {
                statement: Some(
                    StatementView {
                        sql: "INSERT INTO players VALUES (?1, ?2, 0)"@,
                        params: seq![SqlValueView::Text(user_id), SqlValueView::Text(hash)],
                    },
                ),
                answer: AdminOutputView::Success("Player added successfully"@),
            },
        }
    }
}

/// Adds a player, given the hash made of the password.
pub fn add_player_with(
    authorized: bool,
    user_id: &str,
    existence: Existence,
    hashed: Option<String>,
) -> (r: Action)
    ensures
        r@ == spec_add_player(authorized, user_id@, existence, text_view(hashed)),
{
    if !authorized {
        return refuse(AdminOutput::Unauthorized);
    }
    match existence {
        Existence::Present => refuse(failure("Player already exists")),
        Existence::Failed => refuse(failure("Database error")),
        Existence::Absent => match hashed {
            None => refuse(failure("Failed to hash password")),
            Some(hash) => Action {
                statement: Some(
                    statement(
                        "INSERT INTO players VALUES (?1, ?2, 0)",
                        SqlValue::Text(user_id.to_owned()),
                        SqlValue::Text(hash),
                    ),
                ),
                answer: AdminOutput::Success("Player added successfully".to_owned()),
            },
        },
    }
}

/// Adds a player: the password is hashed afresh, so the hash in the
/// statement is whatever the hashing gave; the password verifies against it.
pub fn add_player(authorized: bool, payload: &Player, existence: Existence) -> (r: Action)
    ensures
        exists|hashed: Option<Seq<char>>|
            {
                &&& r@ == spec_add_player(authorized, payload.user_id@, existence, hashed)
                &&& hashed matches Some(hash) ==> argon2_outcome(payload.password@, hash) == Some(
                    true,
                )
            },
{
    let hashed = if authorized && matches!(existence, Existence::Absent) {
        Config::argon2_generate(payload.password.as_str())
    } else {
        None
    };
    let ghost witness = text_view(hashed);
    let r = add_player_with(authorized, payload.user_id.as_str(), existence, hashed);
    assert(r@ == spec_add_player(authorized, payload.user_id@, existence, witness));
    r
}

/// Changing a password, given whether the request is the admin's and the
/// hash made of the new password.
pub open spec fn spec_change_password(
    authorized: bool,
    user_id: Seq<char>,
    hashed: Option<Seq<char>>,
) -> ActionView {
    if !authorized {
        refusal(AdminOutputView::Unauthorized)
    } else {
        match hashed {
            None => refusal(AdminOutputView::Failure("Failed to hash new password"@)),
            Some(hash) => ActionView {
                statement: Some(
                    StatementView {
                        sql: "UPDATE players SET password_hash = ?1 WHERE user_id = ?2"@,
                        params: seq![SqlValueView::Text(hash), SqlValueView::Text(user_id)],
                    },
                ),
                answer: AdminOutputView::Success("Password updated successfully"@),
            },
        }
    }
}

/// Changes a password, given the hash made of the new one.
pub fn change_password_with(authorized: bool, user_id: &str, hashed: Option<String>) -> (r: Action)
    ensures
        r@ == spec_change_password(authorized, user_id@, text_view(hashed)),
{
    if !authorized {
        return refuse(AdminOutput::Unauthorized);
    }
    match hashed {
        None => refuse(failure("Failed to hash new password")),
        Some(hash) => Action {
            statement: Some(
                statement(
                    "UPDATE players SET password_hash = ?1 WHERE user_id = ?2",
                    SqlValue::Text(hash),
                    SqlValue::Text(user_id.to_owned()),
                ),
            ),
            answer: AdminOutput::Success("Password updated successfully".to_owned()),
        },
    }
}

/// Changes a player's password: the new password is hashed afresh and
/// verifies against the hash in the statement.
pub fn change_password(authorized: bool, payload: &Player) -> (r: Action)
    ensures
        exists|hashed: Option<Seq<char>>|
            {
                &&& r@ == spec_change_password(authorized, payload.user_id@, hashed)
                &&& hashed matches Some(hash) ==> argon2_outcome(payload.password@, hash) == Some(
                    true,
                )
            },
{
    let hashed = if authorized {
        Config::argon2_generate(payload.password.as_str())
    } else {
        None
    };
    let ghost witness = text_view(hashed);
    let r = change_password_with(authorized, payload.user_id.as_str(), hashed);
    assert(r@ == spec_change_password(authorized, payload.user_id@, witness));
    r
}

/// The ids that could be read, in the order of their rows.
pub open spec fn readable(rows: Seq<Option<String>>) -> Seq<Seq<char>>
    decreases rows.len(),
{
    if rows.len() == 0 {
        Seq::empty()
    } else {
        match rows.last() {
            Some(id) => readable(rows.drop_last()).push(id@),
            None => readable(rows.drop_last()),
        }
    }
}

/// The list of players, given whether the request is the admin's and the
/// rows that the store gave: a row whose id cannot be read is left out.
pub open spec fn spec_get_players(authorized: bool, rows: Option<Vec<Option<String>>>)
    -> AdminOutputView {
    if !authorized {
        AdminOutputView::Unauthorized
    } else {
        match rows {
            None => AdminOutputView::Failure("Database error"@),
            Some(rows) => AdminOutputView::Players(readable(rows@)),
        }
    }
}

/// Lists the players whose ids could be read.
pub fn get_players(authorized: bool, rows: Option<Vec<Option<String>>>) -> (r: AdminOutput)
    ensures
        r@ == spec_get_players(authorized, rows),
{
    if !authorized {
        return AdminOutput::Unauthorized;
    }
    match rows {
        None => failure("Database error"),
        Some(rows) => {
            let mut players: Vec<String> = Vec::new();
            let mut i: usize = 0;
            assert(rows@.take(0) =~= Seq::<Option<String>>::empty());
            while i < rows.len()
                invariant
                    i <= rows.len(),
                    Seq::new(players@.len(), |k: int| players@[k]@) == readable(
                        rows@.take(i as int),
                    ),
                decreases rows.len() - i,
            {
                let ghost before = Seq::new(players@.len(), |k: int| players@[k]@);
                proof {
                    assert(rows@.take(i + 1).drop_last() =~= rows@.take(i as int));
                    assert(rows@.take(i + 1).last() == rows@[i as int]);
                }
                match &rows[i] {
                    Some(id) => {
                        players.push(id.clone());
                        assert(Seq::new(players@.len(), |k: int| players@[k]@) =~= before.push(
                            id@,
                        ));
                    },
                    None => {},
                }
                i += 1;
            }
            assert(rows@.take(i as int) =~= rows@);
            AdminOutput::Players(players)
        },
    }
}

/// One row of the submissions log as it was read: each column, or nothing
/// where it could not be read.
#[derive(Debug, PartialEq, Eq)]
pub struct SubmissionRow {
    pub user_id: Option<String>,
    pub problem: Option<u64>,
    pub language: Option<String>,
    pub code: Option<String>,
    pub timestamp: Option<String>,
}

/// The submission in a row of which every column could be read. The
/// problem's index is taken modulo 2^32.
pub open spec fn spec_submission(row: SubmissionRow) -> Option<SubmissionInfoView> {
    if row.user_id is Some && row.problem is Some && row.language is Some && row.code is Some
        && row.timestamp is Some {
        Some(
            SubmissionInfoView {
                user_id: row.user_id->0@,
                problem: (row.problem->0 % 0x1_0000_0000) as u32,
                language: row.language->0@,
                code: row.code->0@,
                timestamp: row.timestamp->0@,
            },
        )
    } else {
        None
    }
}

/// Reads one row of the log, if every column of it could be read.
pub fn submission(row: &SubmissionRow) -> (r: Option<SubmissionInfo>)
    ensures
        match r {
            Some(info) => spec_submission(*row) == Some(info@),
            None => spec_submission(*row) is None,
        },
{
    match (&row.user_id, &row.problem, &row.language, &row.code, &row.timestamp) {
        (Some(user_id), Some(problem), Some(language), Some(code), Some(timestamp)) => Some(
            SubmissionInfo {
                user_id: user_id.clone(),
                problem: (*problem % 0x1_0000_0000) as u32,
                language: language.clone(),
                code: code.clone(),
                timestamp: timestamp.clone(),
            },
        ),
        _ => None,
    }
}

/// The submissions that could be read, in the order of their rows.
pub open spec fn readable_submissions(rows: Seq<SubmissionRow>) -> Seq<SubmissionInfoView>
    decreases rows.len(),
{
    if rows.len() == 0 {
        Seq::empty()
    } else {
        match spec_submission(rows.last()) {
            Some(info) => readable_submissions(rows.drop_last()).push(info),
            None => readable_submissions(rows.drop_last()),
        }
    }
}

/// The log of submissions, given whether the request is the admin's and the
/// rows that the store gave: a row with a column that cannot be read is left out.
pub open spec fn spec_get_submissions(authorized: bool, rows: Option<Vec<SubmissionRow>>)
    -> AdminOutputView {
    if !authorized {
        AdminOutputView::Unauthorized
    } else {
        match rows {
            None => AdminOutputView::Failure("Database error"@),
            Some(rows) => AdminOutputView::Submissions(readable_submissions(rows@)),
        }
    }
}

/// Lists the submissions whose rows could be read.
pub fn get_submissions(authorized: bool, rows: Option<Vec<SubmissionRow>>) -> (r: AdminOutput)
    ensures
        r@ == spec_get_submissions(authorized, rows),
{
    if !authorized {
        return AdminOutput::Unauthorized;
    }
    match rows {
        None => failure("Database error"),
        Some(rows) => {
            let mut submissions: Vec<SubmissionInfo> = Vec::new();
            let mut i: usize = 0;
            assert(rows@.take(0) =~= Seq::<SubmissionRow>::empty());
            while i < rows.len()
                invariant
                    i <= rows.len(),
                    Seq::new(submissions@.len(), |k: int| submissions@[k]@)
                        == readable_submissions(rows@.take(i as int)),
                decreases rows.len() - i,
            {
                let ghost before = Seq::new(submissions@.len(), |k: int| submissions@[k]@);
                proof {
                    assert(rows@.take(i + 1).drop_last() =~= rows@.take(i as int));
                    assert(rows@.take(i + 1).last() == rows@[i as int]);
                }
                match submission(&rows[i]) {
                    Some(info) => {
                        let ghost view = info@;
                        submissions.push(info);
                        assert(Seq::new(submissions@.len(), |k: int| submissions@[k]@)
                            =~= before.push(view));
                    },
                    None => {},
                }
                i += 1;
            }
            assert(rows@.take(i as int) =~= rows@);
            AdminOutput::Submissions(submissions)
        },
    }
}

} // verus!
