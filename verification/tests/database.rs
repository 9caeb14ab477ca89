use usage_dash::database::{
    auth_status_statement, insert_provider_statement, list_providers_statement, SqlArg,
    INSERT_PROVIDER_SQL, LIST_PROVIDERS_SQL, SET_AUTH_STATUS_SQL, accounts_migration_result, account_record_id, provider_record_id, tolerated_migration_failure, Database};
use usage_dash::models::{Account, NewAccount, NewProvider, UpdateAccount, UpdateProvider};
use usage_dash::web::routes::{
    needs_credential_check, provider_for_active_account, record_missing_credentials, record_sign_in_check,
    CREDENTIALS_NOT_READY, CREDENTIALS_UNAVAILABLE,
};

fn fresh_database(name: &str) -> Database {
    let stamp = std::time::SystemTime::now()
        .duration_since(std::time::UNIX_EPOCH)
        .unwrap()
        .as_nanos();
    let path = format!("/tmp/usage_dash_{name}_{stamp}.sqlite3");
    let mut db = Database::open(path.clone()).unwrap();
    assert_eq!(db.path(), &path);
    db.migrate().unwrap();
    db
}

#[test]
fn migrating_again_tolerates_the_existing_column() {
    let mut db = fresh_database("migrate");
    db.migrate().unwrap();
    db.migrate().unwrap();
}

#[test]
fn only_a_duplicate_column_is_tolerated() {
    assert!(tolerated_migration_failure("duplicate column name: account_id"));
    assert!(!tolerated_migration_failure("no such table: providers"));
    assert!(!tolerated_migration_failure(""));
}

#[test]
fn record_ids_carry_their_creation_time() {
    assert_eq!(provider_record_id("apify", 1700000000123), "apify-1700000000123");
    assert_eq!(account_record_id(42), "gcp-42");
}

#[test]
fn a_new_database_has_no_active_account() {
    let mut db = fresh_database("empty");
    assert!(db.active_account().unwrap().is_none());
    assert!(db.find_provider("missing").unwrap().is_none());
    assert!(db.list_providers("nobody").unwrap().is_empty());
}

#[test]
fn creating_an_account_makes_it_active_and_starts_onboarding() {
    let mut db = fresh_database("account");
    let account = db.create_account(NewAccount { project_id: "usage-project".to_owned() }).unwrap();
    assert!(account.id.starts_with("gcp-"));
    assert_eq!(account.project_id, "usage-project");
    assert_eq!(account.project_name, None);
    assert_eq!(account.auth_error, None);
    let active = db.active_account().unwrap().unwrap();
    assert_eq!(active.id, account.id);
    assert_eq!(db.onboarding(&account.id).unwrap().current_step, 1);
}

#[test]
fn auth_status_and_onboarding_steps_are_saved() {
    let mut db = fresh_database("auth");
    let account = db.create_account(NewAccount { project_id: "p1".to_owned() }).unwrap();
    db.set_auth_status(&account.id, "failed", None, Some("not signed in")).unwrap();
    let failed = db.active_account().unwrap().unwrap();
    assert_eq!(failed.auth_status, "failed");
    assert_eq!(failed.auth_error.as_deref(), Some("not signed in"));
    db.set_auth_status(&account.id, "ready", Some("p1"), None).unwrap();
    let ready = db.active_account().unwrap().unwrap();
    assert_eq!(ready.auth_status, "ready");
    assert_eq!(ready.project_name.as_deref(), Some("p1"));
    assert_eq!(ready.auth_error, None);
    db.set_auth_status(&account.id, "ready", None, None).unwrap();
    assert_eq!(db.active_account().unwrap().unwrap().project_name.as_deref(), Some("p1"));
    db.set_onboarding_step(&account.id, 4).unwrap();
    assert_eq!(db.onboarding(&account.id).unwrap().current_step, 4);
}

#[test]
fn providers_are_stored_per_account() {
    let mut db = fresh_database("providers");
    let account = db.create_account(NewAccount { project_id: "p1".to_owned() }).unwrap();
    db.add_provider(
        &account.id,
        NewProvider {
            provider_type: "resend".to_owned(),
            display_name: "Mail".to_owned(),
            secret_ref: "RESEND_KEY".to_owned(),
            plan: Some("Pro".to_owned()),
            monthly_quota: Some(50000),
            daily_quota: Some(1000),
            credit_allowance: None,
        },
    )
    .unwrap();
    let providers = db.list_providers(&account.id).unwrap();
    assert_eq!(providers.len(), 1);
    let provider = &providers[0];
    assert!(provider.id.starts_with("resend-"));
    assert_eq!(provider.account_id, account.id);
    assert_eq!(provider.display_name, "Mail");
    assert_eq!(provider.secret_ref, "RESEND_KEY");
    assert!(provider.enabled);
    let found = db.find_provider(&provider.id).unwrap().unwrap();
    assert_eq!(found.display_name, "Mail");
    assert!(db.list_providers("other").unwrap().is_empty());
}

#[test]
fn a_newer_account_replaces_the_active_one() {
    let mut db = fresh_database("switch");
    let first = db.create_account(NewAccount { project_id: "first".to_owned() }).unwrap();
    let start = std::time::Instant::now();
    while start.elapsed() < std::time::Duration::from_millis(5) {}
    let second = db.create_account(NewAccount { project_id: "second".to_owned() }).unwrap();
    assert_ne!(first.id, second.id);
    assert_eq!(db.active_account().unwrap().unwrap().project_id, "second");
}

#[test]
fn the_accounts_migration_ignores_only_an_existing_column() {
    assert!(accounts_migration_result(Ok(())).is_ok());
    let duplicate = rusqlite::Error::SqliteFailure(
        rusqlite::ffi::Error::new(1),
        Some("duplicate column name: account_id".to_owned()),
    );
    assert!(accounts_migration_result(Err(duplicate)).is_ok());
    let other = rusqlite::Error::SqliteFailure(
        rusqlite::ffi::Error::new(1),
        Some("no such table: providers".to_owned()),
    );
    assert!(accounts_migration_result(Err(other)).is_err());
    assert!(accounts_migration_result(Err(rusqlite::Error::QueryReturnedNoRows)).is_err());
}

#[test]
fn provider_edits_and_removal_are_saved() {
    let mut db = fresh_database("edit");
    let account = db.create_account(NewAccount { project_id: "p1".to_owned() }).unwrap();
    db.add_provider(
        &account.id,
        NewProvider {
            provider_type: "openai".to_owned(),
            display_name: "AI".to_owned(),
            secret_ref: "KEY".to_owned(),
            plan: None,
            monthly_quota: None,
            daily_quota: None,
            credit_allowance: None,
        },
    )
    .unwrap();
    let provider = db.list_providers(&account.id).unwrap().remove(0);
    assert_eq!((provider.plan.as_str(), provider.monthly_quota), ("", 0));
    let update = UpdateProvider {
        display_name: "OpenAI".to_owned(),
        secret_ref: "NEW_KEY".to_owned(),
        plan: None,
        monthly_quota: Some(7),
        daily_quota: None,
        credit_allowance: None,
    };
    db.update_provider(&provider.id, "another-account", &update).unwrap();
    assert_eq!(db.find_provider(&provider.id).unwrap().unwrap().display_name, "AI");
    db.update_provider(&provider.id, &account.id, &update).unwrap();
    let edited = db.find_provider(&provider.id).unwrap().unwrap();
    assert_eq!(edited.display_name, "OpenAI");
    assert_eq!(edited.secret_ref, "NEW_KEY");
    assert_eq!((edited.monthly_quota, edited.daily_quota), (7, 0));
    db.set_provider_refresh_error(&provider.id, Some("failed")).unwrap();
    db.set_provider_refresh_error(&provider.id, None).unwrap();
    db.delete_provider(&provider.id, "another-account").unwrap();
    assert!(db.find_provider(&provider.id).unwrap().is_some());
    db.delete_provider(&provider.id, &account.id).unwrap();
    assert!(db.find_provider(&provider.id).unwrap().is_none());
}

#[test]
fn moving_the_active_account_requires_signing_in_again() {
    let mut db = fresh_database("move");
    let account = db.create_account(NewAccount { project_id: "p1".to_owned() }).unwrap();
    db.set_auth_status(&account.id, "ready", Some("p1"), None).unwrap();
    db.update_active_account(UpdateAccount { project_id: "p2".to_owned() }).unwrap();
    let moved = db.active_account().unwrap().unwrap();
    assert_eq!(moved.id, account.id);
    assert_eq!(moved.project_id, "p2");
    assert_eq!(moved.auth_status, "pending");
    assert_eq!(moved.project_name, None);
}

#[test]
fn statements_bind_their_arguments_in_order() {
    let list = list_providers_statement("gcp-1");
    assert_eq!(list.sql, LIST_PROVIDERS_SQL);
    assert_eq!(list.args, vec![SqlArg::Text("gcp-1".to_owned())]);
    let auth = auth_status_statement("gcp-1", "failed", None, Some("no"), "10".to_owned());
    assert_eq!(auth.sql, SET_AUTH_STATUS_SQL);
    assert_eq!(
        auth.args,
        vec![
            SqlArg::Text("gcp-1".to_owned()),
            SqlArg::Text("failed".to_owned()),
            SqlArg::Null,
            SqlArg::Text("no".to_owned()),
            SqlArg::Text("10".to_owned()),
        ]
    );
    let insert = insert_provider_statement(
        "apify-5".to_owned(),
        "gcp-1",
        NewProvider {
            provider_type: "apify".to_owned(),
            display_name: "S".to_owned(),
            secret_ref: "K".to_owned(),
            plan: None,
            monthly_quota: None,
            daily_quota: Some(3),
            credit_allowance: Some("19.5".to_owned()),
        },
        "11".to_owned(),
    );
    assert_eq!(insert.sql, INSERT_PROVIDER_SQL);
    assert_eq!(insert.args[5], SqlArg::Text(String::new()));
    assert_eq!(insert.args[6], SqlArg::Integer(0));
    assert_eq!(insert.args[7], SqlArg::Integer(3));
    assert_eq!(insert.args[8], SqlArg::Text("19.5".to_owned()));
    assert_eq!(insert.args[9], SqlArg::Text("11".to_owned()));
}

#[test]
fn a_sign_in_check_completes_or_fails_authentication() {
    let mut db = fresh_database("signin");
    let account = db.create_account(NewAccount { project_id: "p9".to_owned() }).unwrap();
    record_sign_in_check(&mut db, &account, false).unwrap();
    let failed = db.active_account().unwrap().unwrap();
    assert_eq!(failed.auth_status, "failed");
    assert_eq!(failed.auth_error.as_deref(), Some(CREDENTIALS_NOT_READY));
    assert_eq!(db.onboarding(&account.id).unwrap().current_step, 1);
    record_sign_in_check(&mut db, &account, true).unwrap();
    let ready = db.active_account().unwrap().unwrap();
    assert_eq!(ready.auth_status, "ready");
    assert_eq!(ready.project_name.as_deref(), Some("p9"));
    assert_eq!(ready.auth_error, None);
    assert_eq!(db.onboarding(&account.id).unwrap().current_step, 4);
    record_missing_credentials(&mut db, &account.id).unwrap();
    let missing = db.active_account().unwrap().unwrap();
    assert_eq!(missing.auth_status, "failed");
    assert_eq!(missing.auth_error.as_deref(), Some(CREDENTIALS_UNAVAILABLE));
}

#[test]
fn only_a_ready_account_is_checked_again() {
    let account = |status: &str| Account {
        id: "gcp-1".to_owned(),
        project_id: "p".to_owned(),
        project_name: None,
        auth_status: status.to_owned(),
        auth_error: None,
    };
    assert!(needs_credential_check(&Some(account("ready"))));
    assert!(!needs_credential_check(&Some(account("failed"))));
    assert!(!needs_credential_check(&None));
}

#[test]
fn an_unknown_provider_is_not_visible() {
    let mut db = fresh_database("lookup");
    assert!(provider_for_active_account(&mut db, "missing").unwrap().is_none());
}
