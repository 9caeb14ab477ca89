//! The SQLite store: accounts, their onboarding progress, and providers.
//! Every statement the store runs, and the values bound to it, is made by a
//! verified function below; whether SQLite carries it out is the database's
//! business.

use vstd::prelude::*;
use vstd::string::*;

use crate::clock::{unix_millis, unix_seconds};
use crate::models::{
    Account, NewAccount, NewProvider, Onboarding, ProviderConfig, UpdateAccount, UpdateProvider,
};
use crate::sqlite::{
    column_integer, column_optional_text, column_text, no_rows_error, open_connection, optional_row,
    prepare_statement, query_all, query_first, run_batch, run_statement, ColumnRead, RowReads,
    SqlCall, SqlLog,
};
use crate::text::{append_decimal, contains_seq, contains_text, decimal_seq, decimal_text};

verus! {

/// The tables of providers and of their usage snapshots.
pub const INITIAL_SCHEMA: &'static str = "CREATE TABLE IF NOT EXISTS providers (
    id TEXT PRIMARY KEY,
    provider_type TEXT NOT NULL,
    display_name TEXT NOT NULL,
    secret_ref TEXT NOT NULL,
    enabled INTEGER NOT NULL DEFAULT 1,
    plan TEXT NOT NULL DEFAULT '',
    monthly_quota INTEGER NOT NULL DEFAULT 0,
    daily_quota INTEGER NOT NULL DEFAULT 0,
    apify_monthly_credit_allowance REAL,
    refresh_error TEXT,
    created_at TEXT NOT NULL,
    updated_at TEXT NOT NULL
);
CREATE TABLE IF NOT EXISTS usage_snapshots (
    id INTEGER PRIMARY KEY AUTOINCREMENT,
    provider_id TEXT NOT NULL REFERENCES providers(id) ON DELETE CASCADE,
    timestamp TEXT NOT NULL,
    status TEXT NOT NULL,
    cost REAL,
    currency TEXT,
    raw_metrics_json TEXT NOT NULL DEFAULT '[]'
);";

/// The tables of accounts and onboarding, and the account of each provider.
/// The last statement adds a column, so it fails on a database that has it.
pub const ACCOUNTS_SCHEMA: &'static str = "CREATE TABLE IF NOT EXISTS accounts (
    id TEXT PRIMARY KEY,
    project_id TEXT NOT NULL,
    project_name TEXT,
    auth_status TEXT NOT NULL DEFAULT 'pending',
    auth_error TEXT,
    is_active INTEGER NOT NULL DEFAULT 0,
    created_at TEXT NOT NULL,
    updated_at TEXT NOT NULL
);
CREATE TABLE IF NOT EXISTS onboarding (
    account_id TEXT PRIMARY KEY REFERENCES accounts(id) ON DELETE CASCADE,
    current_step INTEGER NOT NULL DEFAULT 1,
    completed_at TEXT
);
ALTER TABLE providers ADD COLUMN account_id TEXT REFERENCES accounts(id);";

/// The settings of every connection: foreign keys enforced, and the
/// write-ahead log as journal.
pub const CONNECTION_SETTINGS: &'static str = "PRAGMA foreign_keys = ON; PRAGMA journal_mode = WAL;";

/// The providers of an account, newest first.
pub const LIST_PROVIDERS_SQL: &'static str = "SELECT id, account_id, provider_type, display_name, secret_ref, enabled, plan, monthly_quota, daily_quota FROM providers WHERE account_id = ?1 ORDER BY created_at DESC";

/// The provider with an id.
pub const FIND_PROVIDER_SQL: &'static str = "SELECT id, account_id, provider_type, display_name, secret_ref, enabled, plan, monthly_quota, daily_quota FROM providers WHERE id = ?1";

/// Adds an enabled provider.
pub const INSERT_PROVIDER_SQL: &'static str = "INSERT INTO providers (id, account_id, provider_type, display_name, secret_ref, enabled, plan, monthly_quota, daily_quota, apify_monthly_credit_allowance, created_at, updated_at) VALUES (?1, ?2, ?3, ?4, ?5, 1, ?6, ?7, ?8, CAST(?9 AS REAL), ?10, ?10)";

/// Saves an edit of a provider of an account; a NULL plan, quota or
/// allowance keeps the stored one.
pub const UPDATE_PROVIDER_SQL: &'static str = "UPDATE providers SET display_name = ?3, secret_ref = ?4, plan = COALESCE(?5, plan), monthly_quota = COALESCE(?6, monthly_quota), daily_quota = COALESCE(?7, daily_quota), apify_monthly_credit_allowance = COALESCE(CAST(?8 AS REAL), apify_monthly_credit_allowance), updated_at = ?9 WHERE id = ?1 AND account_id = ?2";

/// Removes the snapshots of a provider of an account.
pub const DELETE_SNAPSHOTS_SQL: &'static str = "DELETE FROM usage_snapshots WHERE provider_id IN (SELECT id FROM providers WHERE id = ?1 AND account_id = ?2)";

/// Removes a provider of an account.
pub const DELETE_PROVIDER_SQL: &'static str = "DELETE FROM providers WHERE id = ?1 AND account_id = ?2";

/// Records, or clears with NULL, the error of a provider's last refresh.
pub const SET_REFRESH_ERROR_SQL: &'static str = "UPDATE providers SET refresh_error = ?2, updated_at = ?3 WHERE id = ?1";

/// The most recently created active account.
pub const ACTIVE_ACCOUNT_SQL: &'static str = "SELECT id, project_id, project_name, auth_status, auth_error FROM accounts WHERE is_active = 1 ORDER BY created_at DESC LIMIT 1";

/// Makes no account active.
pub const DEACTIVATE_ACCOUNTS_SQL: &'static str = "UPDATE accounts SET is_active = 0 WHERE is_active = 1";

/// Adds an active account.
pub const INSERT_ACCOUNT_SQL: &'static str = "INSERT INTO accounts (id, project_id, is_active, created_at, updated_at) VALUES (?1, ?2, 1, ?3, ?3)";

/// Starts an account's onboarding at step 1.
pub const INSERT_ONBOARDING_SQL: &'static str = "INSERT INTO onboarding (account_id, current_step) VALUES (?1, 1)";

/// The onboarding step of an account.
pub const ONBOARDING_SQL: &'static str = "SELECT current_step FROM onboarding WHERE account_id = ?1";

/// Records an authentication outcome; a NULL project name keeps the stored
/// one.
pub const SET_AUTH_STATUS_SQL: &'static str = "UPDATE accounts SET auth_status = ?2, project_name = COALESCE(?3, project_name), auth_error = ?4, updated_at = ?5 WHERE id = ?1";

/// Moves an account's onboarding; step 4 completes it.
pub const SET_ONBOARDING_STEP_SQL: &'static str = "UPDATE onboarding SET current_step = ?2, completed_at = CASE WHEN ?2 = 4 THEN ?3 ELSE completed_at END WHERE account_id = ?1";

/// Moves the active account to another project, which has to be
/// authenticated again.
pub const UPDATE_ACTIVE_ACCOUNT_SQL: &'static str = "UPDATE accounts SET project_id = ?1, project_name = NULL, auth_status = 'pending', auth_error = NULL, updated_at = ?2 WHERE is_active = 1";

/// A failure of the accounts migration that only says that the account
/// column is there already.
pub open spec fn is_tolerated_migration_failure(message: Seq<char>) -> bool {
    contains_seq(message, "duplicate column name"@)
}

/// Whether a failure of the accounts migration, described by `message`, can
/// be ignored because the database already has the column it adds.
pub fn tolerated_migration_failure(message: &str) -> (r: bool)
    ensures
        r == is_tolerated_migration_failure(message@),
{
    contains_text(message, "duplicate column name")
}

/// How the accounts migration ends, given how its batch ended: success
/// stays success, a failure whose text says the column exists already is
/// ignored, and any other failure is kept.
pub fn accounts_migration_result(outcome: Result<(), rusqlite::Error>) -> (r: Result<
    (),
    rusqlite::Error,
>)
    ensures
        outcome is Ok ==> r is Ok,
        outcome matches Err(e) ==> (r is Ok ==> exists|m: String|
            to_string_from_display_ensures::<rusqlite::Error>(&e, m)
                && is_tolerated_migration_failure(m@)),
        outcome matches Err(e) ==> (r is Err ==> r == outcome && exists|m: String|
            to_string_from_display_ensures::<rusqlite::Error>(&e, m)
                && !is_tolerated_migration_failure(m@)),
{
    match outcome {
        Ok(()) => Ok(()),
        Err(error) => {
            let message = error.to_string();
            if tolerated_migration_failure(message.as_str()) {
                Ok(())
            } else {
                Err(error)
            }
        },
    }
}

/// The id of a provider record: its type, `-`, and the creation time in
/// milliseconds.
pub open spec fn provider_record_id_seq(provider_type: Seq<char>, millis: u128) -> Seq<char> {
    provider_type + "-"@ + decimal_seq(millis as nat)
}

/// The id of an account record: `gcp-` and the creation time in
/// milliseconds.
pub open spec fn account_record_id_seq(millis: u128) -> Seq<char> {
    "gcp-"@ + decimal_seq(millis as nat)
}

/// Builds the id of a provider record.
pub fn provider_record_id(provider_type: &str, millis: u128) -> (r: String)
    ensures
        r@ == provider_record_id_seq(provider_type@, millis),
{
    let mut r = String::from_str(provider_type);
    r.append("-");
    append_decimal(&mut r, millis);
    r
}

/// Builds the id of an account record.
pub fn account_record_id(millis: u128) -> (r: String)
    ensures
        r@ == account_record_id_seq(millis),
{
    let mut r = String::from_str("gcp-");
    append_decimal(&mut r, millis);
    r
}

/// The current time as decimal seconds since the Unix epoch.
fn now() -> (r: String)
    ensures
        is_time_text(r@),
{
    let secs = unix_seconds();
    decimal_text(secs as u128)
}

/// A value bound to a `?N` parameter of a statement.
#[derive(Debug, Clone, PartialEq, Eq)]
pub enum SqlArg {
    Text(String),
    Integer(i64),
    Null,
}

/// `a` binds the text `s`.
pub open spec fn is_text_arg(a: SqlArg, s: Seq<char>) -> bool {
    a matches SqlArg::Text(t) && t@ == s
}

/// `a` binds `value` when there is one, NULL otherwise.
pub open spec fn is_optional_text_arg(a: SqlArg, value: Option<Seq<char>>) -> bool {
    match value {
        Some(v) => is_text_arg(a, v),
        None => a is Null,
    }
}

/// `a` binds `value` when there is one, NULL otherwise.
pub open spec fn is_optional_integer_arg(a: SqlArg, value: Option<i64>) -> bool {
    match value {
        Some(v) => a == SqlArg::Integer(v),
        None => a is Null,
    }
}

pub open spec fn optional_view(value: Option<&str>) -> Option<Seq<char>> {
    match value {
        Some(v) => Some(v@),
        None => None,
    }
}

pub open spec fn optional_string_view(value: Option<String>) -> Option<Seq<char>> {
    match value {
        Some(v) => Some(v@),
        None => None,
    }
}

fn text_arg(value: &str) -> (r: SqlArg)
    ensures
        is_text_arg(r, value@),
{
    SqlArg::Text(String::from_str(value))
}

fn optional_text_arg(value: Option<&str>) -> (r: SqlArg)
    ensures
        is_optional_text_arg(r, optional_view(value)),
{
    match value {
        Some(v) => SqlArg::Text(String::from_str(v)),
        None => SqlArg::Null,
    }
}

fn optional_integer_arg(value: Option<i64>) -> (r: SqlArg)
    ensures
        is_optional_integer_arg(r, value),
{
    match value {
        Some(v) => SqlArg::Integer(v),
        None => SqlArg::Null,
    }
}

/// A statement: its SQL text and the values of `?1`, `?2`, ... in order.
pub struct SqlStatement {
    pub sql: &'static str,
    pub args: Vec<SqlArg>,
}

/// The query of the providers of an account.
pub fn list_providers_statement(account_id: &str) -> (r: SqlStatement)
    ensures
        r.sql == LIST_PROVIDERS_SQL,
        r.args@.len() == 1,
        is_text_arg(r.args@[0], account_id@),
{
    let mut args: Vec<SqlArg> = Vec::new();
    args.push(text_arg(account_id));
    SqlStatement { sql: LIST_PROVIDERS_SQL, args }
}

/// The query of the provider with id `id`.
pub fn find_provider_statement(id: &str) -> (r: SqlStatement)
    ensures
        r.sql == FIND_PROVIDER_SQL,
        r.args@.len() == 1,
        is_text_arg(r.args@[0], id@),
{
    let mut args: Vec<SqlArg> = Vec::new();
    args.push(text_arg(id));
    SqlStatement { sql: FIND_PROVIDER_SQL, args }
}

/// The insert of a provider record: id, account, type, display name,
/// secret reference, plan (empty when none), monthly and daily quota (0
/// when none), credit allowance (NULL when none), and creation time.
pub fn insert_provider_statement(id: String, account_id: &str, input: NewProvider, now: String) -> (r:
    SqlStatement)
    ensures
        r.sql == INSERT_PROVIDER_SQL,
        r.args@.len() == 10,
        is_text_arg(r.args@[0], id@),
        is_text_arg(r.args@[1], account_id@),
        is_text_arg(r.args@[2], input.provider_type@),
        is_text_arg(r.args@[3], input.display_name@),
        is_text_arg(r.args@[4], input.secret_ref@),
        is_text_arg(
            r.args@[5],
            match input.plan {
                Some(p) => p@,
                None => Seq::<char>::empty(),
            },
        ),
        r.args@[6] == SqlArg::Integer(
            match input.monthly_quota {
                Some(q) => q,
                None => 0,
            },
        ),
        r.args@[7] == SqlArg::Integer(
            match input.daily_quota {
                Some(q) => q,
                None => 0,
            },
        ),
        is_optional_text_arg(r.args@[8], optional_string_view(input.credit_allowance)),
        is_text_arg(r.args@[9], now@),
{
    let allowance = match input.credit_allowance {
        Some(a) => SqlArg::Text(a),
        None => SqlArg::Null,
    };
    let plan = match input.plan {
        Some(p) => p,
        None => String::new(),
    };
    let monthly = match input.monthly_quota {
        Some(q) => q,
        None => 0,
    };
    let daily = match input.daily_quota {
        Some(q) => q,
        None => 0,
    };
    let mut args: Vec<SqlArg> = Vec::new();
    args.push(SqlArg::Text(id));
    args.push(text_arg(account_id));
    args.push(SqlArg::Text(input.provider_type));
    args.push(SqlArg::Text(input.display_name));
    args.push(SqlArg::Text(input.secret_ref));
    args.push(SqlArg::Text(plan));
    args.push(SqlArg::Integer(monthly));
    args.push(SqlArg::Integer(daily));
    args.push(allowance);
    args.push(SqlArg::Text(now));
    SqlStatement { sql: INSERT_PROVIDER_SQL, args }
}

/// The update of a provider of an account: display name, secret
/// reference, plan, quotas and credit allowance (NULL keeps the stored
/// one), and update time.
pub fn update_provider_statement(id: &str, account_id: &str, update: &UpdateProvider, now: String) -> (r:
    SqlStatement)
    ensures
        r.sql == UPDATE_PROVIDER_SQL,
        r.args@.len() == 9,
        is_text_arg(r.args@[0], id@),
        is_text_arg(r.args@[1], account_id@),
        is_text_arg(r.args@[2], update.display_name@),
        is_text_arg(r.args@[3], update.secret_ref@),
        is_optional_text_arg(r.args@[4], optional_string_view(update.plan)),
        is_optional_integer_arg(r.args@[5], update.monthly_quota),
        is_optional_integer_arg(r.args@[6], update.daily_quota),
        is_optional_text_arg(r.args@[7], optional_string_view(update.credit_allowance)),
        is_text_arg(r.args@[8], now@),
{
    let allowance = match &update.credit_allowance {
        Some(a) => SqlArg::Text(a.clone()),
        None => SqlArg::Null,
    };
    let plan = match &update.plan {
        Some(p) => SqlArg::Text(p.clone()),
        None => SqlArg::Null,
    };
    let mut args: Vec<SqlArg> = Vec::new();
    args.push(text_arg(id));
    args.push(text_arg(account_id));
    args.push(SqlArg::Text(update.display_name.clone()));
    args.push(SqlArg::Text(update.secret_ref.clone()));
    args.push(plan);
    args.push(optional_integer_arg(update.monthly_quota));
    args.push(optional_integer_arg(update.daily_quota));
    args.push(allowance);
    args.push(SqlArg::Text(now));
    SqlStatement { sql: UPDATE_PROVIDER_SQL, args }
}

/// The removal of the snapshots of a provider of an account.
pub fn delete_snapshots_statement(id: &str, account_id: &str) -> (r: SqlStatement)
    ensures
        r.sql == DELETE_SNAPSHOTS_SQL,
        r.args@.len() == 2,
        is_text_arg(r.args@[0], id@),
        is_text_arg(r.args@[1], account_id@),
{
    let mut args: Vec<SqlArg> = Vec::new();
    args.push(text_arg(id));
    args.push(text_arg(account_id));
    SqlStatement { sql: DELETE_SNAPSHOTS_SQL, args }
}

/// The removal of a provider of an account.
pub fn delete_provider_statement(id: &str, account_id: &str) -> (r: SqlStatement)
    ensures
        r.sql == DELETE_PROVIDER_SQL,
        r.args@.len() == 2,
        is_text_arg(r.args@[0], id@),
        is_text_arg(r.args@[1], account_id@),
{
    let mut args: Vec<SqlArg> = Vec::new();
    args.push(text_arg(id));
    args.push(text_arg(account_id));
    SqlStatement { sql: DELETE_PROVIDER_SQL, args }
}

/// The update that records (or, with `None`, clears) a provider's refresh
/// error.
pub fn refresh_error_statement(provider_id: &str, error: Option<&str>, now: String) -> (r:
    SqlStatement)
    ensures
        r.sql == SET_REFRESH_ERROR_SQL,
        r.args@.len() == 3,
        is_text_arg(r.args@[0], provider_id@),
        is_optional_text_arg(r.args@[1], optional_view(error)),
        is_text_arg(r.args@[2], now@),
{
    let mut args: Vec<SqlArg> = Vec::new();
    args.push(text_arg(provider_id));
    args.push(optional_text_arg(error));
    args.push(SqlArg::Text(now));
    SqlStatement { sql: SET_REFRESH_ERROR_SQL, args }
}

/// The query of the active account.
pub fn active_account_statement() -> (r: SqlStatement)
    ensures
        r.sql == ACTIVE_ACCOUNT_SQL,
        r.args@.len() == 0,
{
    SqlStatement { sql: ACTIVE_ACCOUNT_SQL, args: Vec::new() }
}

/// The update that makes no account active.
pub fn deactivate_accounts_statement() -> (r: SqlStatement)
    ensures
        r.sql == DEACTIVATE_ACCOUNTS_SQL,
        r.args@.len() == 0,
{
    SqlStatement { sql: DEACTIVATE_ACCOUNTS_SQL, args: Vec::new() }
}

/// The insert of an active account: id, project and creation time.
pub fn insert_account_statement(id: String, project_id: String, now: String) -> (r: SqlStatement)
    ensures
        r.sql == INSERT_ACCOUNT_SQL,
        r.args@.len() == 3,
        is_text_arg(r.args@[0], id@),
        is_text_arg(r.args@[1], project_id@),
        is_text_arg(r.args@[2], now@),
{
    let mut args: Vec<SqlArg> = Vec::new();
    args.push(SqlArg::Text(id));
    args.push(SqlArg::Text(project_id));
    args.push(SqlArg::Text(now));
    SqlStatement { sql: INSERT_ACCOUNT_SQL, args }
}

/// The insert that starts an account's onboarding.
pub fn insert_onboarding_statement(account_id: String) -> (r: SqlStatement)
    ensures
        r.sql == INSERT_ONBOARDING_SQL,
        r.args@.len() == 1,
        is_text_arg(r.args@[0], account_id@),
{
    let mut args: Vec<SqlArg> = Vec::new();
    args.push(SqlArg::Text(account_id));
    SqlStatement { sql: INSERT_ONBOARDING_SQL, args }
}

/// The query of an account's onboarding step.
pub fn onboarding_statement(account_id: &str) -> (r: SqlStatement)
    ensures
        r.sql == ONBOARDING_SQL,
        r.args@.len() == 1,
        is_text_arg(r.args@[0], account_id@),
{
    let mut args: Vec<SqlArg> = Vec::new();
    args.push(text_arg(account_id));
    SqlStatement { sql: ONBOARDING_SQL, args }
}

/// The update that records an authentication outcome: account, status,
/// project name or NULL, error or NULL, and update time.
pub fn auth_status_statement(
    account_id: &str,
    status: &str,
    project_name: Option<&str>,
    error: Option<&str>,
    now: String,
) -> (r: SqlStatement)
    ensures
        r.sql == SET_AUTH_STATUS_SQL,
        r.args@.len() == 5,
        is_text_arg(r.args@[0], account_id@),
        is_text_arg(r.args@[1], status@),
        is_optional_text_arg(r.args@[2], optional_view(project_name)),
        is_optional_text_arg(r.args@[3], optional_view(error)),
        is_text_arg(r.args@[4], now@),
{
    let mut args: Vec<SqlArg> = Vec::new();
    args.push(text_arg(account_id));
    args.push(text_arg(status));
    args.push(optional_text_arg(project_name));
    args.push(optional_text_arg(error));
    args.push(SqlArg::Text(now));
    SqlStatement { sql: SET_AUTH_STATUS_SQL, args }
}

/// The update that moves an account's onboarding: account, step and update
/// time.
pub fn onboarding_step_statement(account_id: &str, step: i64, now: String) -> (r: SqlStatement)
    ensures
        r.sql == SET_ONBOARDING_STEP_SQL,
        r.args@.len() == 3,
        is_text_arg(r.args@[0], account_id@),
        r.args@[1] == SqlArg::Integer(step),
        is_text_arg(r.args@[2], now@),
{
    let mut args: Vec<SqlArg> = Vec::new();
    args.push(text_arg(account_id));
    args.push(SqlArg::Integer(step));
    args.push(SqlArg::Text(now));
    SqlStatement { sql: SET_ONBOARDING_STEP_SQL, args }
}

/// The update that moves the active account to `project_id`.
pub fn update_active_account_statement(project_id: String, now: String) -> (r: SqlStatement)
    ensures
        r.sql == UPDATE_ACTIVE_ACCOUNT_SQL,
        r.args@.len() == 2,
        is_text_arg(r.args@[0], project_id@),
        is_text_arg(r.args@[1], now@),
{
    let mut args: Vec<SqlArg> = Vec::new();
    args.push(SqlArg::Text(project_id));
    args.push(SqlArg::Text(now));
    SqlStatement { sql: UPDATE_ACTIVE_ACCOUNT_SQL, args }
}

/// The columns that the account query selects, in order.
pub open spec fn account_columns() -> Seq<Seq<char>> {
    seq!["id"@, "project_id"@, "project_name"@, "auth_status"@, "auth_error"@]
}

/// `reads` are the reads of one row of the account query that give
/// `account`: each field from the column of the same name, in the order the
/// query selects them.
pub open spec fn is_account_reading(reads: Seq<ColumnRead>, account: Account) -> bool {
    reads == seq![
        ColumnRead::Text(0, account.id@),
        ColumnRead::Text(1, account.project_id@),
        ColumnRead::OptionalText(2, optional_string_view(account.project_name)),
        ColumnRead::Text(3, account.auth_status@),
        ColumnRead::OptionalText(4, optional_string_view(account.auth_error)),
    ]
}

proof fn lemma_account_select_list()
    ensures
        ACTIVE_ACCOUNT_SQL@ == "SELECT "@ + comma_list(account_columns())
            + " FROM accounts WHERE is_active = 1 ORDER BY created_at DESC LIMIT 1"@,
        ONBOARDING_SQL@ == "SELECT "@ + comma_list(seq!["current_step"@])
            + " FROM onboarding WHERE account_id = ?1"@,
{
    reveal_strlit("SELECT id, project_id, project_name, auth_status, auth_error FROM accounts WHERE is_active = 1 ORDER BY created_at DESC LIMIT 1");
    reveal_strlit("SELECT current_step FROM onboarding WHERE account_id = ?1");
    reveal_strlit("SELECT ");
    reveal_strlit(", ");
    reveal_strlit(" FROM accounts WHERE is_active = 1 ORDER BY created_at DESC LIMIT 1");
    reveal_strlit(" FROM onboarding WHERE account_id = ?1");
    reveal_strlit("current_step");
    reveal_strlit("id");
    reveal_strlit("project_id");
    reveal_strlit("project_name");
    reveal_strlit("auth_status");
    reveal_strlit("auth_error");
    let c = account_columns();
    let sep = ", "@;
    assert(c.take(1) =~= seq!["id"@]);
    assert forall|k: int| 2 <= k <= 5 implies comma_list(#[trigger] c.take(k)) == comma_list(
        c.take(k - 1),
    ) + sep + c[k - 1] by {
        assert(c.take(k).drop_last() =~= c.take(k - 1));
    }
    assert(c.take(5) =~= c);
    assert(comma_list(c.take(2)) == "id"@ + sep + "project_id"@);
    assert(comma_list(c.take(3)) == comma_list(c.take(2)) + sep + "project_name"@);
    assert(comma_list(c.take(4)) == comma_list(c.take(3)) + sep + "auth_status"@);
    assert(comma_list(c) == comma_list(c.take(4)) + sep + "auth_error"@);
    assert(ACTIVE_ACCOUNT_SQL@ =~= "SELECT "@ + comma_list(c)
        + " FROM accounts WHERE is_active = 1 ORDER BY created_at DESC LIMIT 1"@);
    assert(comma_list(seq!["current_step"@]) == "current_step"@);
    assert(ONBOARDING_SQL@ =~= "SELECT "@ + comma_list(seq!["current_step"@])
        + " FROM onboarding WHERE account_id = ?1"@);
}

/// Law: an account read from a row of the account query takes each field
/// from the column of the same name, counted in the order in which the
/// query selects them: its id from column 0, its project from column 1,
/// its project name (NULL for none) from column 2, its status from column
/// 3 and its error (NULL for none) from column 4; and an onboarding read
/// from a row of the onboarding query takes its step from the one column,
/// `current_step`.
pub proof fn law_account_fields_follow_columns(
    reads: Seq<ColumnRead>,
    account: Account,
    step_reads: Seq<ColumnRead>,
    onboarding: Onboarding,
)
    requires
        is_account_reading(reads, account),
        is_onboarding_reading(step_reads, onboarding),
    ensures
        ACTIVE_ACCOUNT_SQL@ == "SELECT "@ + comma_list(account_columns())
            + " FROM accounts WHERE is_active = 1 ORDER BY created_at DESC LIMIT 1"@,
        reads.len() == 5,
        account_columns()[0] == "id"@ && reads[0] == ColumnRead::Text(0, account.id@),
        account_columns()[1] == "project_id"@ && reads[1] == ColumnRead::Text(
            1,
            account.project_id@,
        ),
        account_columns()[2] == "project_name"@ && reads[2] == ColumnRead::OptionalText(
            2,
            optional_string_view(account.project_name),
        ),
        account_columns()[3] == "auth_status"@ && reads[3] == ColumnRead::Text(
            3,
            account.auth_status@,
        ),
        account_columns()[4] == "auth_error"@ && reads[4] == ColumnRead::OptionalText(
            4,
            optional_string_view(account.auth_error),
        ),
        ONBOARDING_SQL@ == "SELECT "@ + comma_list(seq!["current_step"@])
            + " FROM onboarding WHERE account_id = ?1"@,
        step_reads == seq![ColumnRead::Integer(0, onboarding.current_step)],
{
    lemma_account_select_list();
}

/// Reads an account from a row of the account query.
fn read_account(reads: &mut RowReads, row: &rusqlite::Row<'_>) -> (r: Result<Account, rusqlite::Error>)
    requires
        old(reads).reads() == Seq::<ColumnRead>::empty(),
    ensures
        r matches Ok(account) ==> is_account_reading(final(reads).reads(), account),
{
    let id = column_text(reads, row, 0)?;
    let project_id = column_text(reads, row, 1)?;
    let project_name = column_optional_text(reads, row, 2)?;
    let auth_status = column_text(reads, row, 3)?;
    let auth_error = column_optional_text(reads, row, 4)?;
    let account = Account { id, project_id, project_name, auth_status, auth_error };
    proof {
        assert(reads.reads() =~= seq![
            ColumnRead::Text(0, account.id@),
            ColumnRead::Text(1, account.project_id@),
            ColumnRead::OptionalText(2, optional_string_view(account.project_name)),
            ColumnRead::Text(3, account.auth_status@),
            ColumnRead::OptionalText(4, optional_string_view(account.auth_error)),
        ]);
    }
    Ok(account)
}

fn account_from_row(row: &rusqlite::Row<'_>) -> (r: Result<Account, rusqlite::Error>) {
    let mut reads = RowReads::new();
    read_account(&mut reads, row)
}

/// `reads` are the reads of one row of the onboarding query that give
/// `onboarding`: its step from the one column selected.
pub open spec fn is_onboarding_reading(reads: Seq<ColumnRead>, onboarding: Onboarding) -> bool {
    reads == seq![ColumnRead::Integer(0, onboarding.current_step)]
}

/// Reads an onboarding from a row of the onboarding query.
fn read_onboarding(reads: &mut RowReads, row: &rusqlite::Row<'_>) -> (r: Result<
    Onboarding,
    rusqlite::Error,
>)
    requires
        old(reads).reads() == Seq::<ColumnRead>::empty(),
    ensures
        r matches Ok(onboarding) ==> is_onboarding_reading(final(reads).reads(), onboarding),
{
    let current_step = column_integer(reads, row, 0)?;
    let onboarding = Onboarding { current_step };
    proof {
        assert(reads.reads() =~= seq![ColumnRead::Integer(0, onboarding.current_step)]);
    }
    Ok(onboarding)
}

fn onboarding_from_row(row: &rusqlite::Row<'_>) -> (r: Result<Onboarding, rusqlite::Error>) {
    let mut reads = RowReads::new();
    read_onboarding(&mut reads, row)
}

/// The store's handle: the path of its SQLite file, and the log of the
/// calls it has handed to SQLite. Each operation opens its own connection.
#[derive(Clone)]
pub struct Database {
    path: String,
    log: SqlLog,
    answers: Ghost<Seq<StoreAnswer>>,
}

/// What a lookup of the store answered: the provider found, or the active
/// account.
pub enum StoreAnswer {
    Provider(Option<ProviderConfig>),
    Account(Option<Account>),
}

/// `s` is a time: decimal seconds since the Unix epoch.
pub open spec fn is_time_text(s: Seq<char>) -> bool {
    exists|secs: u64| s == decimal_seq(secs as nat)
}

/// `a` binds a time.
pub open spec fn is_time_arg(a: SqlArg) -> bool {
    a matches SqlArg::Text(t) && is_time_text(t@)
}

/// The values bound by an `Execute` or `Query` call.
pub open spec fn call_args(call: SqlCall) -> Seq<SqlArg> {
    match call {
        SqlCall::Execute(_, args) => args,
        SqlCall::Query(_, args) => args,
        _ => Seq::empty(),
    }
}

/// `call` runs the statement `sql` with `arity` bound values.
pub open spec fn is_execute(call: SqlCall, sql: Seq<char>, arity: nat) -> bool {
    call matches SqlCall::Execute(s, args) && s == sql && args.len() == arity
}

/// `call` runs the query `sql` with `arity` bound values.
pub open spec fn is_query(call: SqlCall, sql: Seq<char>, arity: nat) -> bool {
    call matches SqlCall::Query(s, args) && s == sql && args.len() == arity
}

/// The calls that `log` holds beyond `earlier`.
pub open spec fn calls_since(log: Seq<SqlCall>, earlier: Seq<SqlCall>) -> Seq<SqlCall> {
    log.skip(earlier.len() as int)
}

/// `log` holds the calls of `earlier`, then perhaps more.
pub open spec fn extends(log: Seq<SqlCall>, earlier: Seq<SqlCall>) -> bool {
    earlier.len() <= log.len() && log.take(earlier.len() as int) == earlier
}

/// A log that extends a log that extends `earlier` extends `earlier`, and
/// the calls since `earlier` are those up to `middle`, then those after.
pub proof fn lemma_calls_compose(log: Seq<SqlCall>, middle: Seq<SqlCall>, earlier: Seq<SqlCall>)
    requires
        extends(middle, earlier),
        extends(log, middle),
    ensures
        extends(log, earlier),
        calls_since(log, earlier) == calls_since(middle, earlier) + calls_since(log, middle),
{
    assert(log.take(earlier.len() as int) =~= middle.take(earlier.len() as int));
    assert(calls_since(log, earlier) =~= calls_since(middle, earlier) + calls_since(log, middle));
}

/// Adding a call extends a log by that call.
pub proof fn lemma_push_extends(log: Seq<SqlCall>, call: SqlCall)
    ensures
        extends(log.push(call), log),
        calls_since(log.push(call), log) == seq![call],
{
    assert(log.push(call).take(log.len() as int) =~= log);
    assert(calls_since(log.push(call), log) =~= seq![call]);
}

/// Opening the file at `path` and running the connection settings.
pub open spec fn is_open_run(run: Seq<SqlCall>, path: Seq<char>) -> bool {
    run == seq![SqlCall::Open(path), SqlCall::Batch(CONNECTION_SETTINGS@)]
}

/// Opening the file at `path` and creating the tables: first those of
/// providers and snapshots, then those of accounts and onboarding.
pub open spec fn is_migration_run(run: Seq<SqlCall>, path: Seq<char>) -> bool {
    run == seq![
        SqlCall::Open(path),
        SqlCall::Batch(INITIAL_SCHEMA@),
        SqlCall::Batch(ACCOUNTS_SCHEMA@),
    ]
}

/// Opening the file at `path` and querying the providers of `account_id`.
pub open spec fn is_list_providers_run(run: Seq<SqlCall>, path: Seq<char>, account_id: Seq<char>) -> bool {
    &&& run.len() == 2
    &&& run[0] == SqlCall::Open(path)
    &&& is_query(run[1], LIST_PROVIDERS_SQL@, 1)
    &&& is_text_arg(call_args(run[1])[0], account_id)
}

/// Opening the file at `path` and querying the provider with id `id`.
pub open spec fn is_find_provider_run(run: Seq<SqlCall>, path: Seq<char>, id: Seq<char>) -> bool {
    &&& run.len() == 2
    &&& run[0] == SqlCall::Open(path)
    &&& is_query(run[1], FIND_PROVIDER_SQL@, 1)
    &&& is_text_arg(call_args(run[1])[0], id)
}

/// Opening the file at `path` and inserting `input` as an enabled provider
/// of `account_id`, with an id made of its type and a time in
/// milliseconds, and the current time as creation time.
pub open spec fn is_add_provider_run(
    run: Seq<SqlCall>,
    path: Seq<char>,
    account_id: Seq<char>,
    input: NewProvider,
) -> bool {
    let args = call_args(run[1]);
    &&& run.len() == 2
    &&& run[0] == SqlCall::Open(path)
    &&& is_execute(run[1], INSERT_PROVIDER_SQL@, 10)
    &&& exists|millis: u128|
        is_text_arg(args[0], provider_record_id_seq(input.provider_type@, millis))
    &&& is_text_arg(args[1], account_id)
    &&& is_text_arg(args[2], input.provider_type@)
    &&& is_text_arg(args[3], input.display_name@)
    &&& is_text_arg(args[4], input.secret_ref@)
    &&& is_text_arg(
        args[5],
        match input.plan {
            Some(p) => p@,
            None => Seq::<char>::empty(),
        },
    )
    &&& args[6] == SqlArg::Integer(
        match input.monthly_quota {
            Some(q) => q,
            None => 0,
        },
    )
    &&& args[7] == SqlArg::Integer(
        match input.daily_quota {
            Some(q) => q,
            None => 0,
        },
    )
    &&& is_optional_text_arg(args[8], optional_string_view(input.credit_allowance))
    &&& is_time_arg(args[9])
}

/// Opening the file at `path` and saving `update` to provider `id` of
/// `account_id`, with the current time as update time.
pub open spec fn is_update_provider_run(
    run: Seq<SqlCall>,
    path: Seq<char>,
    id: Seq<char>,
    account_id: Seq<char>,
    update: UpdateProvider,
) -> bool {
    let args = call_args(run[1]);
    &&& run.len() == 2
    &&& run[0] == SqlCall::Open(path)
    &&& is_execute(run[1], UPDATE_PROVIDER_SQL@, 9)
    &&& is_text_arg(args[0], id)
    &&& is_text_arg(args[1], account_id)
    &&& is_text_arg(args[2], update.display_name@)
    &&& is_text_arg(args[3], update.secret_ref@)
    &&& is_optional_text_arg(args[4], optional_string_view(update.plan))
    &&& is_optional_integer_arg(args[5], update.monthly_quota)
    &&& is_optional_integer_arg(args[6], update.daily_quota)
    &&& is_optional_text_arg(args[7], optional_string_view(update.credit_allowance))
    &&& is_time_arg(args[8])
}

/// Opening the file at `path`, removing the snapshots of provider `id` of
/// `account_id`, then the provider.
pub open spec fn is_delete_provider_run(
    run: Seq<SqlCall>,
    path: Seq<char>,
    id: Seq<char>,
    account_id: Seq<char>,
) -> bool {
    &&& run.len() == 3
    &&& run[0] == SqlCall::Open(path)
    &&& is_execute(run[1], DELETE_SNAPSHOTS_SQL@, 2)
    &&& is_text_arg(call_args(run[1])[0], id)
    &&& is_text_arg(call_args(run[1])[1], account_id)
    &&& is_execute(run[2], DELETE_PROVIDER_SQL@, 2)
    &&& is_text_arg(call_args(run[2])[0], id)
    &&& is_text_arg(call_args(run[2])[1], account_id)
}

/// Opening the file at `path` and recording `error` (NULL for none) as the
/// refresh error of `provider_id`, with the current time.
pub open spec fn is_refresh_error_run(
    run: Seq<SqlCall>,
    path: Seq<char>,
    provider_id: Seq<char>,
    error: Option<Seq<char>>,
) -> bool {
    &&& run.len() == 2
    &&& run[0] == SqlCall::Open(path)
    &&& is_execute(run[1], SET_REFRESH_ERROR_SQL@, 3)
    &&& is_text_arg(call_args(run[1])[0], provider_id)
    &&& is_optional_text_arg(call_args(run[1])[1], error)
    &&& is_time_arg(call_args(run[1])[2])
}

/// Opening the file at `path` and querying the active account.
pub open spec fn is_active_account_run(run: Seq<SqlCall>, path: Seq<char>) -> bool {
    &&& run.len() == 2
    &&& run[0] == SqlCall::Open(path)
    &&& is_query(run[1], ACTIVE_ACCOUNT_SQL@, 0)
}

/// Opening the file at `path`; making no account active; inserting an
/// active account for `project_id`, with an id made of a time in
/// milliseconds and the current time as creation time; starting the
/// onboarding of that id; then querying the active account.
pub open spec fn is_create_account_run(run: Seq<SqlCall>, path: Seq<char>, project_id: Seq<char>) -> bool {
    let insert = call_args(run[2]);
    &&& run.len() == 6
    &&& run[0] == SqlCall::Open(path)
    &&& is_execute(run[1], DEACTIVATE_ACCOUNTS_SQL@, 0)
    &&& is_execute(run[2], INSERT_ACCOUNT_SQL@, 3)
    &&& is_text_arg(insert[1], project_id)
    &&& is_time_arg(insert[2])
    &&& is_execute(run[3], INSERT_ONBOARDING_SQL@, 1)
    &&& exists|millis: u128|
        is_text_arg(insert[0], account_record_id_seq(millis)) && is_text_arg(
            call_args(run[3])[0],
            account_record_id_seq(millis),
        )
    &&& is_active_account_run(run.skip(4), path)
}

/// Opening the file at `path` and moving the active account to
/// `project_id`, with the current time.
pub open spec fn is_update_active_account_run(run: Seq<SqlCall>, path: Seq<char>, project_id: Seq<char>) -> bool {
    &&& run.len() == 2
    &&& run[0] == SqlCall::Open(path)
    &&& is_execute(run[1], UPDATE_ACTIVE_ACCOUNT_SQL@, 2)
    &&& is_text_arg(call_args(run[1])[0], project_id)
    &&& is_time_arg(call_args(run[1])[1])
}

/// Opening the file at `path` and querying the onboarding of `account_id`.
pub open spec fn is_onboarding_run(run: Seq<SqlCall>, path: Seq<char>, account_id: Seq<char>) -> bool {
    &&& run.len() == 2
    &&& run[0] == SqlCall::Open(path)
    &&& is_query(run[1], ONBOARDING_SQL@, 1)
    &&& is_text_arg(call_args(run[1])[0], account_id)
}

/// Opening the file at `path` and recording an authentication outcome of
/// `account_id`, with the current time.
pub open spec fn is_auth_status_run(
    run: Seq<SqlCall>,
    path: Seq<char>,
    account_id: Seq<char>,
    status: Seq<char>,
    project_name: Option<Seq<char>>,
    error: Option<Seq<char>>,
) -> bool {
    let args = call_args(run[1]);
    &&& run.len() == 2
    &&& run[0] == SqlCall::Open(path)
    &&& is_execute(run[1], SET_AUTH_STATUS_SQL@, 5)
    &&& is_text_arg(args[0], account_id)
    &&& is_text_arg(args[1], status)
    &&& is_optional_text_arg(args[2], project_name)
    &&& is_optional_text_arg(args[3], error)
    &&& is_time_arg(args[4])
}

/// Opening the file at `path` and moving the onboarding of `account_id` to
/// `step`, with the current time.
pub open spec fn is_onboarding_step_run(
    run: Seq<SqlCall>,
    path: Seq<char>,
    account_id: Seq<char>,
    step: i64,
) -> bool {
    &&& run.len() == 2
    &&& run[0] == SqlCall::Open(path)
    &&& is_execute(run[1], SET_ONBOARDING_STEP_SQL@, 3)
    &&& is_text_arg(call_args(run[1])[0], account_id)
    &&& call_args(run[1])[1] == SqlArg::Integer(step)
    &&& is_time_arg(call_args(run[1])[2])
}

/// A provider record made of its columns; the `enabled` column holds an
/// integer that is true when non-zero.
pub fn provider_from_columns(
    id: String,
    account_id: String,
    provider_type: String,
    display_name: String,
    secret_ref: String,
    enabled: i64,
    plan: String,
    monthly_quota: i64,
    daily_quota: i64,
) -> (r: ProviderConfig)
    ensures
        r.id == id,
        r.account_id == account_id,
        r.provider_type == provider_type,
        r.display_name == display_name,
        r.secret_ref == secret_ref,
        r.enabled == (enabled != 0),
        r.plan == plan,
        r.monthly_quota == monthly_quota,
        r.daily_quota == daily_quota,
{
    ProviderConfig {
        id,
        account_id,
        provider_type,
        display_name,
        secret_ref,
        enabled: enabled != 0,
        plan,
        monthly_quota,
        daily_quota,
    }
}

/// The columns that the provider queries select, in order.
pub open spec fn provider_columns() -> Seq<Seq<char>> {
    seq![
        "id"@,
        "account_id"@,
        "provider_type"@,
        "display_name"@,
        "secret_ref"@,
        "enabled"@,
        "plan"@,
        "monthly_quota"@,
        "daily_quota"@,
    ]
}

/// `reads` are the reads of one row of a provider query that give
/// `provider`: each field from the column of the same name, in the order
/// the queries select them, with `enabled` true for a non-zero integer.
pub open spec fn is_provider_reading(reads: Seq<ColumnRead>, provider: ProviderConfig) -> bool {
    &&& reads.len() == 9
    &&& reads[0] == ColumnRead::Text(0, provider.id@)
    &&& reads[1] == ColumnRead::Text(1, provider.account_id@)
    &&& reads[2] == ColumnRead::Text(2, provider.provider_type@)
    &&& reads[3] == ColumnRead::Text(3, provider.display_name@)
    &&& reads[4] == ColumnRead::Text(4, provider.secret_ref@)
    &&& reads[5] matches ColumnRead::Integer(i, e) && i == 5 && provider.enabled == (e != 0)
    &&& reads[6] == ColumnRead::Text(6, provider.plan@)
    &&& reads[7] == ColumnRead::Integer(7, provider.monthly_quota)
    &&& reads[8] == ColumnRead::Integer(8, provider.daily_quota)
}

/// The names `names` separated by `, `, as a `SELECT` lists its columns.
pub open spec fn comma_list(names: Seq<Seq<char>>) -> Seq<char>
    decreases names.len(),
{
    if names.len() <= 1 {
        if names.len() == 0 {
            Seq::empty()
        } else {
            names[0]
        }
    } else {
        comma_list(names.drop_last()) + ", "@ + names.last()
    }
}

proof fn lemma_provider_select_list()
    ensures
        LIST_PROVIDERS_SQL@ == "SELECT "@ + comma_list(provider_columns())
            + " FROM providers WHERE account_id = ?1 ORDER BY created_at DESC"@,
        FIND_PROVIDER_SQL@ == "SELECT "@ + comma_list(provider_columns())
            + " FROM providers WHERE id = ?1"@,
{
    reveal_strlit("SELECT id, account_id, provider_type, display_name, secret_ref, enabled, plan, monthly_quota, daily_quota FROM providers WHERE account_id = ?1 ORDER BY created_at DESC");
    reveal_strlit("SELECT id, account_id, provider_type, display_name, secret_ref, enabled, plan, monthly_quota, daily_quota FROM providers WHERE id = ?1");
    reveal_strlit("SELECT ");
    reveal_strlit(", ");
    reveal_strlit(" FROM providers WHERE account_id = ?1 ORDER BY created_at DESC");
    reveal_strlit(" FROM providers WHERE id = ?1");
    reveal_strlit("id, account_id, provider_type, display_name, secret_ref, enabled, plan, monthly_quota, daily_quota");
    reveal_strlit("id");
    reveal_strlit("account_id");
    reveal_strlit("provider_type");
    reveal_strlit("display_name");
    reveal_strlit("secret_ref");
    reveal_strlit("enabled");
    reveal_strlit("plan");
    reveal_strlit("monthly_quota");
    reveal_strlit("daily_quota");
    let c = provider_columns();
    let sep = ", "@;
    assert(c.take(1) =~= seq!["id"@]);
    assert(comma_list(c.take(1)) == "id"@);
    assert forall|k: int| 2 <= k <= 9 implies comma_list(#[trigger] c.take(k)) == comma_list(
        c.take(k - 1),
    ) + sep + c[k - 1] by {
        assert(c.take(k).drop_last() =~= c.take(k - 1));
    }
    assert(c.take(9) =~= c);
    let listed = "id"@ + sep + "account_id"@ + sep + "provider_type"@ + sep + "display_name"@ + sep
        + "secret_ref"@ + sep + "enabled"@ + sep + "plan"@ + sep + "monthly_quota"@ + sep
        + "daily_quota"@;
    assert(comma_list(c.take(2)) == "id"@ + sep + "account_id"@);
    assert(comma_list(c.take(3)) == comma_list(c.take(2)) + sep + "provider_type"@);
    assert(comma_list(c.take(4)) == comma_list(c.take(3)) + sep + "display_name"@);
    assert(comma_list(c.take(5)) == comma_list(c.take(4)) + sep + "secret_ref"@);
    assert(comma_list(c.take(6)) == comma_list(c.take(5)) + sep + "enabled"@);
    assert(comma_list(c.take(7)) == comma_list(c.take(6)) + sep + "plan"@);
    assert(comma_list(c.take(8)) == comma_list(c.take(7)) + sep + "monthly_quota"@);
    assert(comma_list(c) == comma_list(c.take(8)) + sep + "daily_quota"@);
    assert(comma_list(c) =~= listed);
    assert(listed =~= "id, account_id, provider_type, display_name, secret_ref, enabled, plan, monthly_quota, daily_quota"@);
    assert(LIST_PROVIDERS_SQL@ =~= "SELECT "@ + comma_list(c)
        + " FROM providers WHERE account_id = ?1 ORDER BY created_at DESC"@);
    assert(FIND_PROVIDER_SQL@ =~= "SELECT "@ + comma_list(c) + " FROM providers WHERE id = ?1"@);
}

/// Law: a provider read from a row of the provider queries takes each
/// field from the column of the same name, counted in the order in which
/// both queries select them: its id from column 0, its account from column
/// 1, its type from column 2, its display name from column 3, its secret
/// reference from column 4, `enabled` from the integer of column 5 (true
/// when non-zero), its plan from column 6, and its monthly and daily quotas
/// from columns 7 and 8.
pub proof fn law_provider_fields_follow_columns(reads: Seq<ColumnRead>, provider: ProviderConfig)
    requires
        is_provider_reading(reads, provider),
    ensures
        LIST_PROVIDERS_SQL@ == "SELECT "@ + comma_list(provider_columns())
            + " FROM providers WHERE account_id = ?1 ORDER BY created_at DESC"@,
        FIND_PROVIDER_SQL@ == "SELECT "@ + comma_list(provider_columns())
            + " FROM providers WHERE id = ?1"@,
        provider_columns()[0] == "id"@ && reads[0] == ColumnRead::Text(0, provider.id@),
        provider_columns()[1] == "account_id"@ && reads[1] == ColumnRead::Text(
            1,
            provider.account_id@,
        ),
        provider_columns()[2] == "provider_type"@ && reads[2] == ColumnRead::Text(
            2,
            provider.provider_type@,
        ),
        provider_columns()[3] == "display_name"@ && reads[3] == ColumnRead::Text(
            3,
            provider.display_name@,
        ),
        provider_columns()[4] == "secret_ref"@ && reads[4] == ColumnRead::Text(
            4,
            provider.secret_ref@,
        ),
        provider_columns()[5] == "enabled"@,
        reads[5] matches ColumnRead::Integer(i, e) && i == 5 && provider.enabled == (e != 0),
        provider_columns()[6] == "plan"@ && reads[6] == ColumnRead::Text(6, provider.plan@),
        provider_columns()[7] == "monthly_quota"@ && reads[7] == ColumnRead::Integer(
            7,
            provider.monthly_quota,
        ),
        provider_columns()[8] == "daily_quota"@ && reads[8] == ColumnRead::Integer(
            8,
            provider.daily_quota,
        ),
{
    lemma_provider_select_list();
}

/// Reads a provider from a row of a provider query.
fn read_provider(reads: &mut RowReads, row: &rusqlite::Row<'_>) -> (r: Result<
    ProviderConfig,
    rusqlite::Error,
>)
    requires
        old(reads).reads() == Seq::<ColumnRead>::empty(),
    ensures
        r matches Ok(provider) ==> is_provider_reading(final(reads).reads(), provider),
{
    let id = column_text(reads, row, 0)?;
    let account_id = column_text(reads, row, 1)?;
    let provider_type = column_text(reads, row, 2)?;
    let display_name = column_text(reads, row, 3)?;
    let secret_ref = column_text(reads, row, 4)?;
    let enabled = column_integer(reads, row, 5)?;
    let plan = column_text(reads, row, 6)?;
    let monthly_quota = column_integer(reads, row, 7)?;
    let daily_quota = column_integer(reads, row, 8)?;
    Ok(
        provider_from_columns(
            id,
            account_id,
            provider_type,
            display_name,
            secret_ref,
            enabled,
            plan,
            monthly_quota,
            daily_quota,
        ),
    )
}

fn provider_from_row(row: &rusqlite::Row<'_>) -> (r: Result<ProviderConfig, rusqlite::Error>) {
    let mut reads = RowReads::new();
    read_provider(&mut reads, row)
}

impl Database {
    /// The path of the SQLite file, as text.
    pub closed spec fn file_path(&self) -> Seq<char> {
        self.path@
    }

    /// The calls this handle has handed to SQLite, oldest first.
    pub closed spec fn log(&self) -> Seq<SqlCall> {
        self.log.calls()
    }

    /// What the lookups through this handle answered, oldest first:
    /// `find_provider` and `active_account` each add their answer.
    pub closed spec fn answers(&self) -> Seq<StoreAnswer> {
        self.answers@
    }

    /// The path of the SQLite file.
    pub fn path(&self) -> (r: &String)
        ensures
            r@ == self.file_path(),
    {
        &self.path
    }

    /// Opens the store at `path`, with foreign keys enforced and the
    /// write-ahead log as journal.
    pub fn open(path: String) -> (r: Result<Database, rusqlite::Error>)
        ensures
            r matches Ok(db) ==> db.file_path() == path@ && is_open_run(db.log(), path@),
    {
        let mut db = Database { path, log: SqlLog::new(), answers: Ghost(Seq::empty()) };
        let connection = db.connection()?;
        run_batch(&mut db.log, &connection, CONNECTION_SETTINGS)?;
        proof {
            assert(db.log() =~= seq![SqlCall::Open(path@), SqlCall::Batch(CONNECTION_SETTINGS@)]);
        }
        Ok(db)
    }

    fn connection(&mut self) -> (r: Result<rusqlite::Connection, rusqlite::Error>)
        ensures
            final(self).file_path() == old(self).file_path(),
            final(self).log() == old(self).log().push(SqlCall::Open(old(self).file_path())),
            extends(final(self).log(), old(self).log()),
            final(self).answers() == old(self).answers(),
    {
        let connection = open_connection(&mut self.log, self.path.as_str());
        proof {
            lemma_push_extends(old(self).log(), SqlCall::Open(old(self).file_path()));
        }
        connection
    }

    /// Creates the tables that are missing. A database made before accounts
    /// existed may already have the account column of providers: that one
    /// failure is ignored.
    pub fn migrate(&mut self) -> (r: Result<(), rusqlite::Error>)
        ensures
            final(self).file_path() == old(self).file_path(),
            extends(final(self).log(), old(self).log()),
            r is Ok ==> is_migration_run(
                calls_since(final(self).log(), old(self).log()),
                old(self).file_path(),
            ),
    {
        let connection = self.connection()?;
        let first = run_batch(&mut self.log, &connection, INITIAL_SCHEMA);
        proof {
            assert(self.log().take(old(self).log().len() as int) =~= old(self).log());
        }
        first?;
        let outcome = run_batch(&mut self.log, &connection, ACCOUNTS_SCHEMA);
        proof {
            let n = old(self).log().len() as int;
            assert(calls_since(self.log(), old(self).log()) =~= seq![
                SqlCall::Open(old(self).file_path()),
                SqlCall::Batch(INITIAL_SCHEMA@),
                SqlCall::Batch(ACCOUNTS_SCHEMA@),
            ]);
            assert(self.log().take(n) =~= old(self).log());
        }
        accounts_migration_result(outcome)
    }

    fn execute(&mut self, statement: SqlStatement) -> (r: Result<usize, rusqlite::Error>)
        ensures
            final(self).file_path() == old(self).file_path(),
            extends(final(self).log(), old(self).log()),
            r is Ok ==> calls_since(final(self).log(), old(self).log()) == seq![
                SqlCall::Open(old(self).file_path()),
                SqlCall::Execute(statement.sql@, statement.args@),
            ],
    {
        let ghost before = self.log();
        let connection = self.connection()?;
        let outcome = run_statement(&mut self.log, &connection, statement.sql, statement.args);
        proof {
            assert(calls_since(self.log(), before) =~= seq![
                SqlCall::Open(old(self).file_path()),
                SqlCall::Execute(statement.sql@, statement.args@),
            ]);
            assert(self.log().take(before.len() as int) =~= before);
        }
        outcome
    }

    /// The providers of an account, newest first.
    pub fn list_providers(&mut self, account_id: &str) -> (r: Result<Vec<ProviderConfig>, rusqlite::Error>)
        ensures
            final(self).file_path() == old(self).file_path(),
            extends(final(self).log(), old(self).log()),
            r is Ok ==> is_list_providers_run(
                calls_since(final(self).log(), old(self).log()),
                old(self).file_path(),
                account_id@,
            ),
    {
        let ghost before = self.log();
        let connection = self.connection()?;
        let query = list_providers_statement(account_id);
        let mut statement = prepare_statement(&connection, query.sql)?;
        let rows = query_all(
            &mut self.log,
            &mut statement,
            query.args,
            |row: &rusqlite::Row<'_>| provider_from_row(row),
        );
        proof {
            assert(self.log().take(before.len() as int) =~= before);
            assert(calls_since(self.log(), before) =~= seq![
                SqlCall::Open(old(self).file_path()),
                SqlCall::Query(LIST_PROVIDERS_SQL@, query.args@),
            ]);
        }
        rows
    }

    /// The provider with id `id`, if there is one.
    pub fn find_provider(&mut self, id: &str) -> (r: Result<Option<ProviderConfig>, rusqlite::Error>)
        ensures
            final(self).file_path() == old(self).file_path(),
            extends(final(self).log(), old(self).log()),
            r is Ok ==> is_find_provider_run(
                calls_since(final(self).log(), old(self).log()),
                old(self).file_path(),
                id@,
            ),
            r matches Ok(found) ==> final(self).answers() == old(self).answers().push(
                StoreAnswer::Provider(found),
            ),
            r is Err ==> final(self).answers() == old(self).answers(),
    {
        let ghost before = self.log();
        let connection = self.connection()?;
        let query = find_provider_statement(id);
        let ghost args = query.args@;
        let row = query_first(
            &mut self.log,
            &connection,
            query.sql,
            query.args,
            |row: &rusqlite::Row<'_>| provider_from_row(row),
        );
        proof {
            assert(self.log().take(before.len() as int) =~= before);
            assert(calls_since(self.log(), before) =~= seq![
                SqlCall::Open(old(self).file_path()),
                SqlCall::Query(FIND_PROVIDER_SQL@, args),
            ]);
        }
        let found = optional_row(row);
        proof {
            if found is Ok {
                self.answers@ = self.answers@.push(StoreAnswer::Provider(found->Ok_0));
            }
        }
        found
    }

    /// Adds an enabled provider to an account. Its id is its type, `-` and
    /// the time in milliseconds.
    pub fn add_provider(&mut self, account_id: &str, input: NewProvider) -> (r: Result<
        (),
        rusqlite::Error,
    >)
        ensures
            final(self).file_path() == old(self).file_path(),
            extends(final(self).log(), old(self).log()),
            r is Ok ==> is_add_provider_run(
                calls_since(final(self).log(), old(self).log()),
                old(self).file_path(),
                account_id@,
                input,
            ),
    {
        let now = now();
        let millis = unix_millis();
        let id = provider_record_id(input.provider_type.as_str(), millis);
        let ghost original = input;
        let statement = insert_provider_statement(id, account_id, input, now);
        proof {
            assert(is_text_arg(
                statement.args@[0],
                provider_record_id_seq(original.provider_type@, millis),
            ));
        }
        self.execute(statement)?;
        Ok(())
    }

    /// Saves an edit of provider `id` of account `account_id`.
    pub fn update_provider(&mut self, id: &str, account_id: &str, update: &UpdateProvider) -> (r:
        Result<(), rusqlite::Error>)
        ensures
            final(self).file_path() == old(self).file_path(),
            extends(final(self).log(), old(self).log()),
            r is Ok ==> is_update_provider_run(
                calls_since(final(self).log(), old(self).log()),
                old(self).file_path(),
                id@,
                account_id@,
                *update,
            ),
    {
        self.execute(update_provider_statement(id, account_id, update, now()))?;
        Ok(())
    }

    /// Removes provider `id` of account `account_id`, with its snapshots.
    pub fn delete_provider(&mut self, id: &str, account_id: &str) -> (r: Result<(), rusqlite::Error>)
        ensures
            final(self).file_path() == old(self).file_path(),
            extends(final(self).log(), old(self).log()),
            r is Ok ==> is_delete_provider_run(
                calls_since(final(self).log(), old(self).log()),
                old(self).file_path(),
                id@,
                account_id@,
            ),
    {
        let ghost before = self.log();
        let connection = self.connection()?;
        let snapshots = delete_snapshots_statement(id, account_id);
        let ghost first = snapshots.args@;
        let outcome = run_statement(&mut self.log, &connection, snapshots.sql, snapshots.args);
        proof {
            assert(self.log().take(before.len() as int) =~= before);
        }
        outcome?;
        let provider = delete_provider_statement(id, account_id);
        let ghost second = provider.args@;
        let outcome = run_statement(&mut self.log, &connection, provider.sql, provider.args);
        proof {
            assert(self.log().take(before.len() as int) =~= before);
            assert(calls_since(self.log(), before) =~= seq![
                SqlCall::Open(old(self).file_path()),
                SqlCall::Execute(DELETE_SNAPSHOTS_SQL@, first),
                SqlCall::Execute(DELETE_PROVIDER_SQL@, second),
            ]);
        }
        outcome?;
        Ok(())
    }

    /// Records the error of a provider's last refresh, or clears it with
    /// `None`.
    pub fn set_provider_refresh_error(&mut self, provider_id: &str, error: Option<&str>) -> (r:
        Result<(), rusqlite::Error>)
        ensures
            final(self).file_path() == old(self).file_path(),
            extends(final(self).log(), old(self).log()),
            r is Ok ==> is_refresh_error_run(
                calls_since(final(self).log(), old(self).log()),
                old(self).file_path(),
                provider_id@,
                optional_view(error),
            ),
    {
        self.execute(refresh_error_statement(provider_id, error, now()))?;
        Ok(())
    }

    /// The active account: the most recently created one that is marked
    /// active.
    pub fn active_account(&mut self) -> (r: Result<Option<Account>, rusqlite::Error>)
        ensures
            final(self).file_path() == old(self).file_path(),
            extends(final(self).log(), old(self).log()),
            r is Ok ==> is_active_account_run(
                calls_since(final(self).log(), old(self).log()),
                old(self).file_path(),
            ),
            r matches Ok(found) ==> final(self).answers() == old(self).answers().push(
                StoreAnswer::Account(found),
            ),
            r is Err ==> final(self).answers() == old(self).answers(),
    {
        let ghost before = self.log();
        let connection = self.connection()?;
        let query = active_account_statement();
        let ghost args = query.args@;
        let row = query_first(
            &mut self.log,
            &connection,
            query.sql,
            query.args,
            |row: &rusqlite::Row<'_>| account_from_row(row),
        );
        proof {
            assert(self.log().take(before.len() as int) =~= before);
            assert(calls_since(self.log(), before) =~= seq![
                SqlCall::Open(old(self).file_path()),
                SqlCall::Query(ACTIVE_ACCOUNT_SQL@, args),
            ]);
        }
        let found = optional_row(row);
        proof {
            if found is Ok {
                self.answers@ = self.answers@.push(StoreAnswer::Account(found->Ok_0));
            }
        }
        found
    }

    /// Creates an account for a project, makes it the only active one, starts
    /// its onboarding at step 1, and returns it as the active account.
    pub fn create_account(&mut self, input: NewAccount) -> (r: Result<Account, rusqlite::Error>)
        ensures
            final(self).file_path() == old(self).file_path(),
            extends(final(self).log(), old(self).log()),
            r is Ok ==> is_create_account_run(
                calls_since(final(self).log(), old(self).log()),
                old(self).file_path(),
                input.project_id@,
            ),
    {
        let ghost before = self.log();
        let now = now();
        let millis = unix_millis();
        let id = account_record_id(millis);
        let connection = self.connection()?;
        let deactivate = deactivate_accounts_statement();
        let ghost a1 = deactivate.args@;
        let outcome = run_statement(&mut self.log, &connection, deactivate.sql, deactivate.args);
        proof {
            assert(self.log().take(before.len() as int) =~= before);
        }
        outcome?;
        let insert = insert_account_statement(id.clone(), input.project_id, now);
        let ghost a2 = insert.args@;
        let outcome = run_statement(&mut self.log, &connection, insert.sql, insert.args);
        proof {
            assert(self.log().take(before.len() as int) =~= before);
        }
        outcome?;
        let onboarding = insert_onboarding_statement(id);
        let ghost a3 = onboarding.args@;
        let outcome = run_statement(&mut self.log, &connection, onboarding.sql, onboarding.args);
        proof {
            assert(self.log().take(before.len() as int) =~= before);
        }
        outcome?;
        let ghost middle = self.log();
        proof {
            assert(calls_since(middle, before) =~= seq![
                SqlCall::Open(old(self).file_path()),
                SqlCall::Execute(DEACTIVATE_ACCOUNTS_SQL@, a1),
                SqlCall::Execute(INSERT_ACCOUNT_SQL@, a2),
                SqlCall::Execute(INSERT_ONBOARDING_SQL@, a3),
            ]);
        }
        let active = self.active_account();
        proof {
            lemma_calls_compose(self.log(), middle, before);
        }
        let active = active?;
        proof {
            let run = calls_since(self.log(), before);
            assert(run.take(4) =~= calls_since(middle, before));
            assert(run.skip(4) =~= calls_since(self.log(), middle));
            assert(is_text_arg(a2[0], account_record_id_seq(millis)));
            assert(is_text_arg(a3[0], account_record_id_seq(millis)));
        }
        match active {
            Some(account) => Ok(account),
            None => Err(no_rows_error()),
        }
    }

    /// Moves the active account to another project.
    pub fn update_active_account(&mut self, input: UpdateAccount) -> (r: Result<(), rusqlite::Error>)
        ensures
            final(self).file_path() == old(self).file_path(),
            extends(final(self).log(), old(self).log()),
            r is Ok ==> is_update_active_account_run(
                calls_since(final(self).log(), old(self).log()),
                old(self).file_path(),
                input.project_id@,
            ),
    {
        self.execute(update_active_account_statement(input.project_id, now()))?;
        Ok(())
    }

    /// The onboarding progress of an account.
    pub fn onboarding(&mut self, account_id: &str) -> (r: Result<Onboarding, rusqlite::Error>)
        ensures
            final(self).file_path() == old(self).file_path(),
            extends(final(self).log(), old(self).log()),
            r is Ok ==> is_onboarding_run(
                calls_since(final(self).log(), old(self).log()),
                old(self).file_path(),
                account_id@,
            ),
    {
        let ghost before = self.log();
        let connection = self.connection()?;
        let query = onboarding_statement(account_id);
        let ghost args = query.args@;
        let row = query_first(
            &mut self.log,
            &connection,
            query.sql,
            query.args,
            |row: &rusqlite::Row<'_>| onboarding_from_row(row),
        );
        proof {
            assert(self.log().take(before.len() as int) =~= before);
            assert(calls_since(self.log(), before) =~= seq![
                SqlCall::Open(old(self).file_path()),
                SqlCall::Query(ONBOARDING_SQL@, args),
            ]);
        }
        row
    }

    /// Records the outcome of authenticating an account: its status, its
    /// project name when one is given, and its error.
    pub fn set_auth_status(
        &mut self,
        account_id: &str,
        status: &str,
        project_name: Option<&str>,
        error: Option<&str>,
    ) -> (r: Result<(), rusqlite::Error>)
        ensures
            final(self).file_path() == old(self).file_path(),
            extends(final(self).log(), old(self).log()),
            r is Ok ==> is_auth_status_run(
                calls_since(final(self).log(), old(self).log()),
                old(self).file_path(),
                account_id@,
                status@,
                optional_view(project_name),
                optional_view(error),
            ),
    {
        self.execute(auth_status_statement(account_id, status, project_name, error, now()))?;
        Ok(())
    }

    /// Moves an account's onboarding to `step`; step 4 completes it.
    pub fn set_onboarding_step(&mut self, account_id: &str, step: i64) -> (r: Result<
        (),
        rusqlite::Error,
    >)
        ensures
            final(self).file_path() == old(self).file_path(),
            extends(final(self).log(), old(self).log()),
            r is Ok ==> is_onboarding_step_run(
                calls_since(final(self).log(), old(self).log()),
                old(self).file_path(),
                account_id@,
                step,
            ),
    {
        self.execute(onboarding_step_statement(account_id, step, now()))?;
        Ok(())
    }
}

} // verus!
