//! The progress store as the judge sees it: the statements that read a
//! player's progress and that record an accepted submission, and the time
//! stamp of such a record.

use crate::languages::Language;
use chrono::DateTime;
use vstd::prelude::*;

verus! {

/// The tables of the store: the players with their progress, and the log of
/// accepted submissions. Setting them up again changes nothing.
pub open spec fn spec_schema() -> Seq<char> {
    "CREATE TABLE IF NOT EXISTS players (user_id TEXT PRIMARY KEY, password_hash TEXT, solved INTEGER); CREATE TABLE IF NOT EXISTS submissions (user_id TEXT, problem INTEGER, language TEXT, code TEXT, timestamp TEXT);"@
}

/// The statements that set the tables up.
pub fn schema() -> (r: &'static str)
    ensures
        r@ == spec_schema(),
{
    "CREATE TABLE IF NOT EXISTS players (user_id TEXT PRIMARY KEY, password_hash TEXT, solved INTEGER); CREATE TABLE IF NOT EXISTS submissions (user_id TEXT, problem INTEGER, language TEXT, code TEXT, timestamp TEXT);"
}

/// A value bound to a statement's parameter.
#[derive(Debug, PartialEq, Eq)]
pub enum SqlValue {
    Text(String),
    Integer(u64),
}

/// The mathematical value of a [`SqlValue`].
pub enum SqlValueView {
    Text(Seq<char>),
    Integer(u64),
}

impl View for SqlValue {
    type V = SqlValueView;

    open spec fn view(&self) -> SqlValueView {
        match self {
            SqlValue::Text(text) => SqlValueView::Text(text@),
            SqlValue::Integer(number) => SqlValueView::Integer(*number),
        }
    }
}

/// A statement with the values of its numbered parameters, in their order.
#[derive(Debug, PartialEq, Eq)]
pub struct Statement {
    pub sql: String,
    pub params: Vec<SqlValue>,
}

/// The mathematical value of a [`Statement`].
pub struct StatementView {
    pub sql: Seq<char>,
    pub params: Seq<SqlValueView>,
}

/// The values of a vector of parameters.
pub open spec fn value_views(v: Seq<SqlValue>) -> Seq<SqlValueView> {
    Seq::new(v.len(), |i: int| v[i]@)
}

impl View for Statement {
    type V = StatementView;

    open spec fn view(&self) -> StatementView {
        StatementView { sql: self.sql@, params: value_views(self.params@) }
    }
}

/// The values of a vector of statements.
pub open spec fn statement_views(v: Seq<Statement>) -> Seq<StatementView> {
    Seq::new(v.len(), |i: int| v[i]@)
}

/// What the store said of a player's progress.
#[derive(Clone, Copy, Debug, PartialEq, Eq, Structural)]
pub enum PlayerLookup {
    /// The store could not be asked, or its answer could not be read.
    Failed,
    /// No such player.
    Missing,
    /// The player's count of solved problems: the index of the next one.
    Found(u64),
}

/// The lookup of the progress of `user_id`: one row of one column, or none.
pub open spec fn spec_current_problem(user_id: Seq<char>) -> StatementView {
    StatementView {
        sql: "SELECT solved FROM players WHERE user_id = ?1 LIMIT 1"@,
        params: seq![SqlValueView::Text(user_id)],
    }
}

/// The lookup of the progress of `user_id`.
pub fn current_problem(user_id: &str) -> (r: Statement)
    ensures
        r@ == spec_current_problem(user_id@),
{
    let mut params: Vec<SqlValue> = Vec::new();
    params.push(SqlValue::Text(user_id.to_owned()));
    let r = Statement {
        sql: "SELECT solved FROM players WHERE user_id = ?1 LIMIT 1".to_owned(),
        params,
    };
    assert(r@.params =~= spec_current_problem(user_id@).params);
    r
}

/// Whether a player with `solved` problems solved has solved all `count`.
pub fn is_completed(solved: u64, count: usize) -> (r: bool)
    ensures
        r == (solved >= count),
{
    solved >= count as u64
}

/// The record of an accepted submission: the submission is logged, then the
/// player's count becomes `problem + 1`. Both statements belong to one
/// transaction: both take effect, or neither.
pub open spec fn spec_record_accepted(
    user_id: Seq<char>,
    problem: usize,
    language: Language,
    code: Seq<char>,
    now: Seq<char>,
) -> Seq<StatementView> {
    seq![
        StatementView {
            sql: "INSERT INTO submissions VALUES (?1, ?2, ?3, ?4, ?5)"@,
            params: seq![
                SqlValueView::Text(user_id),
                SqlValueView::Integer(problem as u64),
                SqlValueView::Text(language.spec_tag()),
                SqlValueView::Text(code),
                SqlValueView::Text(now),
            ],
        },
        StatementView {
            sql: "UPDATE players SET solved = ?1 WHERE user_id = ?2"@,
            params: seq![
                SqlValueView::Integer((problem + 1) as u64),
                SqlValueView::Text(user_id),
            ],
        },
    ]
}

/// The statements that record an accepted submission, in their order.
pub fn record_accepted(
    user_id: &str,
    problem: usize,
    language: Language,
    code: &str,
    now: &str,
) -> (r: Vec<Statement>)
    requires
        problem < usize::MAX,
    ensures
        statement_views(r@) == spec_record_accepted(user_id@, problem, language, code@, now@),
{
    let mut log: Vec<SqlValue> = Vec::new();
    log.push(SqlValue::Text(user_id.to_owned()));
    log.push(SqlValue::Integer(problem as u64));
    log.push(SqlValue::Text(language.tag().to_owned()));
    log.push(SqlValue::Text(code.to_owned()));
    log.push(SqlValue::Text(now.to_owned()));
    let mut bump: Vec<SqlValue> = Vec::new();
    bump.push(SqlValue::Integer(problem as u64 + 1));
    bump.push(SqlValue::Text(user_id.to_owned()));
    let insert = Statement {
        sql: "INSERT INTO submissions VALUES (?1, ?2, ?3, ?4, ?5)".to_owned(),
        params: log,
    };
    let update = Statement {
        sql: "UPDATE players SET solved = ?1 WHERE user_id = ?2".to_owned(),
        params: bump,
    };
    let ghost expected = spec_record_accepted(user_id@, problem, language, code@, now@);
    assert(insert@.params =~= expected[0].params);
    assert(update@.params =~= expected[1].params);
    let mut r: Vec<Statement> = Vec::new();
    r.push(insert);
    r.push(update);
    assert(statement_views(r@) =~= expected);
    r
}

/// The RFC 3339 text of the point in time `secs` seconds and `nanos`
/// nanoseconds after the Unix epoch, in UTC, as `DateTime::to_rfc3339` writes
/// it; `None` where `DateTime::from_timestamp` has no such point.
pub uninterp spec fn rfc3339(secs: i64, nanos: u32) -> Option<Seq<char>>;

/// Calls `DateTime::from_timestamp` and, on the point in time it gives,
/// `DateTime::to_rfc3339`. The result is named.
#[verifier::external_body]
fn format_rfc3339(secs: i64, nanos: u32) -> (r: Option<String>)
    ensures
        match r {
            Some(text) => rfc3339(secs, nanos) == Some(text@),
            None => rfc3339(secs, nanos) is None,
        },
{
    match DateTime::from_timestamp(secs, nanos) {
        Some(time) => Some(time.to_rfc3339()),
        None => None,
    }
}

/// The time stamp of a record made at the given point in time.
pub fn timestamp(secs: i64, nanos: u32) -> (r: Option<String>)
    ensures
        match r {
            Some(text) => rfc3339(secs, nanos) == Some(text@),
            None => rfc3339(secs, nanos) is None,
        },
{
    format_rfc3339(secs, nanos)
}

} // verus!
