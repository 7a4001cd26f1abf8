//! Logging a player in: the stored hash is looked up, the password is
//! verified against it, and a session token is issued.

use crate::config::{argon2_outcome, text_view, Config, ConfigView};
use crate::progress::{SqlValue, SqlValueView, Statement, StatementView};
use crate::{Output, OutputView};
use vstd::prelude::*;

verus! {

/// A player's credentials as they are sent in.
#[derive(Debug, PartialEq, Eq)]
pub struct Player {
    pub user_id: String,
    pub password: String,
}

/// What the store said of a player's password hash.
#[derive(Debug, PartialEq, Eq)]
pub enum HashLookup {
    /// The store could not be asked, or its answer could not be read.
    Failed,
    /// No such player.
    Missing,
    /// The player's password hash.
    Found(String),
}

/// The lookup of the password hash of `user_id`: one row of one column, or none.
pub open spec fn spec_password_lookup(user_id: Seq<char>) -> StatementView {
    StatementView {
        sql: "SELECT password_hash FROM players WHERE user_id = ?1 LIMIT 1"@,
        params: seq![SqlValueView::Text(user_id)],
    }
}

/// The lookup of the password hash of `user_id`.
pub fn password_lookup(user_id: &str) -> (r: Statement)
    ensures
        r@ == spec_password_lookup(user_id@),
{
    let mut params: Vec<SqlValue> = Vec::new();
    params.push(SqlValue::Text(user_id.to_owned()));
    let r = Statement {
        sql: "SELECT password_hash FROM players WHERE user_id = ?1 LIMIT 1".to_owned(),
        params,
    };
    assert(r@.params =~= spec_password_lookup(user_id@).params);
    r
}

/// The answer to a login whose password check gave `verified` and for which
/// sealing the player's id gave `token`: only a password that verifies gets a
/// token; if none could be made then, the failure is the server's.
pub open spec fn spec_issue(verified: Option<bool>, token: Option<Seq<char>>) -> OutputView {
    if verified == Some(true) {
        match token {
            Some(token) => OutputView::Token(token),
            None => OutputView::ServerError,
        }
    } else {
        OutputView::Unauthorized
    }
}

/// The answer to a login, given the password check and the sealed id.
pub fn issue(verified: Option<bool>, token: Option<String>) -> (r: Output)
    ensures
        r@ == spec_issue(verified, text_view(token)),
{
    match verified {
        Some(true) => match token {
            Some(token) => Output::Token(token),
            None => Output::ServerError,
        },
        _ => Output::Unauthorized,
    }
}

/// The answer to a login: a store that failed is the server's failure; an
/// unknown player is unauthorized; else the password decides.
pub open spec fn spec_handle_auth(
    conf: ConfigView,
    user_id: Seq<char>,
    password: Seq<char>,
    lookup: HashLookup,
) -> OutputView {
    match lookup {
        HashLookup::Failed => OutputView::ServerError,
        HashLookup::Missing => OutputView::Unauthorized,
        HashLookup::Found(hash) => spec_issue(
            argon2_outcome(password, hash@),
            conf.encrypt(user_id),
        ),
    }
}

/// Answers a login, given what the store said of the player's hash.
pub fn handle_auth(conf: &Config, payload: &Player, lookup: &HashLookup) -> (r: Output)
    ensures
        r@ == spec_handle_auth(conf@, payload.user_id@, payload.password@, *lookup),
{
    match lookup {
        HashLookup::Failed => Output::ServerError,
        HashLookup::Missing => Output::Unauthorized,
        HashLookup::Found(hash) => {
            let verified = Config::argon2_verify(payload.password.as_str(), hash.as_str());
            let token = conf.encrypt(payload.user_id.as_str());
            issue(verified, token)
        },
    }
}

} // verus!
