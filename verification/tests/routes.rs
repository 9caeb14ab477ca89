use usage_dash::models::{NewProvider, ProviderConfig, UpdateProvider};
use usage_dash::providers::ProviderError;
use usage_dash::secrets::SecretError;
use usage_dash::web::routes::{
    plan_refresh, provider_update, RefreshAction, RefreshTally, tally_outcomes, format_email_count, new_provider_step, normalize_secret_reference, form_secret_accepted, refresh_failure_message,
    secret_refresh_message, secret_reference, valid_project_id, valid_secret_name, RequestError,
};

#[test]
fn normalizes_a_short_secret_name_to_the_active_project() {
    assert_eq!(
        normalize_secret_reference("usage-project", "OPENAI_ADMIN_KEY").unwrap(),
        "projects/usage-project/secrets/OPENAI_ADMIN_KEY/versions/latest"
    );
}

#[test]
fn rejects_a_reference_for_another_project() {
    assert!(
        normalize_secret_reference(
            "usage-project",
            "projects/other-project/secrets/OPENAI_ADMIN_KEY/versions/latest"
        )
        .is_err()
    );
}

#[test]
fn normalizes_a_reference_without_version_to_latest() {
    assert_eq!(
        normalize_secret_reference("usage-project", "projects/usage-project/secrets/KEY").unwrap(),
        "projects/usage-project/secrets/KEY/versions/latest"
    );
}

#[test]
fn keeps_a_full_reference_in_the_active_project() {
    assert_eq!(
        normalize_secret_reference("usage-project", "  projects/usage-project/secrets/KEY/versions/3 \n")
            .unwrap(),
        "projects/usage-project/secrets/KEY/versions/3"
    );
}

#[test]
fn trims_a_bare_secret_name() {
    assert_eq!(
        normalize_secret_reference("p1", "\t RESEND_KEY  ").unwrap(),
        "projects/p1/secrets/RESEND_KEY/versions/latest"
    );
}

#[test]
fn rejects_blank_and_malformed_references() {
    assert_eq!(normalize_secret_reference("p1", "   "), Err(RequestError::BadRequest));
    assert_eq!(normalize_secret_reference("p1", "bad.name"), Err(RequestError::BadRequest));
    assert_eq!(
        normalize_secret_reference("p1", "projects/p1/secrets/KEY/versions/"),
        Err(RequestError::BadRequest)
    );
    assert_eq!(
        normalize_secret_reference("p1", "projects/p1/secrets/KEY/version/1"),
        Err(RequestError::BadRequest)
    );
    assert_eq!(
        normalize_secret_reference("p1", "projects/p1/secrets/bad name"),
        Err(RequestError::BadRequest)
    );
    assert_eq!(normalize_secret_reference("p1", "a/b"), Err(RequestError::BadRequest));
}

#[test]
fn normalizing_twice_changes_nothing() {
    let once = normalize_secret_reference("usage-project", "KEY").unwrap();
    let twice = normalize_secret_reference("usage-project", &once).unwrap();
    assert_eq!(once, twice);
}

#[test]
fn project_ids_are_lowercase_digits_and_dashes() {
    assert!(valid_project_id("usage-project-42"));
    assert!(!valid_project_id(""));
    assert!(!valid_project_id("Usage"));
    assert!(!valid_project_id("usage_project"));
    assert!(valid_project_id(&"a".repeat(63)));
    assert!(!valid_project_id(&"a".repeat(64)));
    assert!(!valid_project_id("é"));
}

#[test]
fn secret_names_are_ascii_words() {
    assert!(valid_secret_name("OPENAI_ADMIN_KEY-2"));
    assert!(!valid_secret_name(""));
    assert!(!valid_secret_name("a.b"));
    assert!(!valid_secret_name("a/b"));
    assert!(valid_secret_name(&"K".repeat(255)));
    assert!(!valid_secret_name(&"K".repeat(256)));
}

#[test]
fn builds_full_references() {
    assert_eq!(secret_reference("p", "s", "7"), "projects/p/secrets/s/versions/7");
}

#[test]
fn request_error_messages() {
    assert_eq!(RequestError::BadRequest.message(), "invalid request");
    assert_eq!(RequestError::NotFound.message(), "provider was not found");
}

#[test]
fn secret_failures_read_as_refresh_errors() {
    assert_eq!(
        secret_refresh_message(SecretError::InvalidReference),
        "Secret Manager reference is invalid."
    );
    assert_eq!(
        secret_refresh_message(SecretError::AuthenticationFailed),
        "Google Application Default Credentials are unavailable. Sign in again and check credentials before refreshing."
    );
    assert!(secret_refresh_message(SecretError::AccessFailed).starts_with("Google Cloud could not access"));
    assert_eq!(
        secret_refresh_message(SecretError::InvalidPayload),
        "Google Cloud returned a Secret Manager value that could not be read safely."
    );
}

#[test]
fn collector_failures_name_the_provider() {
    assert_eq!(
        refresh_failure_message("Mail", ProviderError::Request),
        "Mail refresh failed: provider request failed"
    );
}

fn form(provider_type: &str, display_name: &str, secret_ref: &str) -> NewProvider {
    NewProvider {
        provider_type: provider_type.to_owned(),
        display_name: display_name.to_owned(),
        secret_ref: secret_ref.to_owned(),
        plan: None,
        monthly_quota: None,
        daily_quota: None,
        credit_allowance: None,
    }
}

fn resend_form(plan: Option<&str>, monthly: Option<i64>, daily: Option<i64>) -> NewProvider {
    NewProvider {
        plan: plan.map(str::to_owned),
        monthly_quota: monthly,
        daily_quota: daily,
        ..form("resend", "Mail", " RESEND_KEY ")
    }
}

#[test]
fn resend_provider_finishes_onboarding() {
    let input = resend_form(Some("Pro"), Some(50000), Some(100));
    assert_eq!(new_provider_step("p1", "ready", &input, false), Ok(4));
}

#[test]
fn other_providers_move_to_alerts() {
    assert_eq!(new_provider_step("p1", "ready", &form("apify", "Scraper", "APIFY"), true), Ok(3));
    assert_eq!(new_provider_step("p1", "ready", &form("openai", "AI", "OPENAI"), false), Ok(3));
}

#[test]
fn accepts_a_full_reference_in_the_active_project() {
    let input = form("openai", "OpenAI", "projects/usage-project/secrets/OPENAI_ADMIN_KEY/versions/latest");
    assert_eq!(new_provider_step("usage-project", "ready", &input, false), Ok(3));
}

#[test]
fn refuses_a_reference_without_a_version() {
    let short = form("openai", "OpenAI", "projects/usage-project/secrets/OPENAI_ADMIN_KEY");
    assert_eq!(new_provider_step("usage-project", "ready", &short, false), Err(RequestError::BadRequest));
    let edit_short = UpdateProvider {
        secret_ref: "projects/p1/secrets/NEW_KEY".to_owned(),
        ..edit(None, None, None, None)
    };
    assert_eq!(provider_update(&stored("openai"), "p1", edit_short, false).err(), Some(RequestError::BadRequest));
}

#[test]
fn form_secrets_are_bare_names_or_full_references() {
    assert!(form_secret_accepted("p1", " KEY "));
    assert!(form_secret_accepted("p1", "projects/p1/secrets/KEY/versions/7"));
    assert!(!form_secret_accepted("p1", "projects/p1/secrets/KEY"));
    assert!(!form_secret_accepted("p1", "projects/p2/secrets/KEY/versions/7"));
    assert!(!form_secret_accepted("p1", "projects/p1/secrets/KEY/versions/"));
    assert!(!form_secret_accepted("p1", "bad.name"));
    assert!(!form_secret_accepted("p1", ""));
}

#[test]
fn rejects_invalid_provider_forms() {
    let bad = Err(RequestError::BadRequest);
    assert_eq!(new_provider_step("p1", "failed", &form("openai", "AI", "KEY"), false), bad);
    assert_eq!(new_provider_step("p1", "ready", &form("stripe", "AI", "KEY"), false), bad);
    assert_eq!(new_provider_step("p1", "ready", &form("openai", "  ", "KEY"), false), bad);
    assert_eq!(new_provider_step("p1", "ready", &form("openai", "AI", " "), false), bad);
    assert_eq!(new_provider_step("p1", "ready", &form("openai", "AI", "a.b"), false), bad);
    assert_eq!(
        new_provider_step("p1", "ready", &form("openai", "AI", "projects/p2/secrets/KEY/versions/1"), false),
        bad
    );
    assert_eq!(new_provider_step("p1", "ready", &form("apify", "S", "KEY"), false), bad);
    assert_eq!(new_provider_step("p1", "ready", &resend_form(Some(""), Some(1), Some(1)), false), bad);
    assert_eq!(new_provider_step("p1", "ready", &resend_form(Some("Pro"), Some(0), Some(1)), false), bad);
    assert_eq!(new_provider_step("p1", "ready", &resend_form(Some("Pro"), Some(1), None), false), bad);
}

#[test]
fn email_counts_have_thousands_separators() {
    assert_eq!(format_email_count(0), "0");
    assert_eq!(format_email_count(999), "999");
    assert_eq!(format_email_count(1000), "1,000");
    assert_eq!(format_email_count(1234567), "1,234,567");
    assert_eq!(format_email_count(100000), "100,000");
}

#[test]
fn separators_only_add_commas() {
    let formatted = format_email_count(9876543210);
    assert_eq!(formatted.replace(',', ""), "9876543210");
}

#[test]
fn an_accepted_secret_resolves_in_the_active_project() {
    let input = form("openai", "AI", "  OPENAI_ADMIN_KEY ");
    assert_eq!(new_provider_step("usage-project", "ready", &input, false), Ok(3));
    assert_eq!(
        normalize_secret_reference("usage-project", &input.secret_ref).unwrap(),
        "projects/usage-project/secrets/OPENAI_ADMIN_KEY/versions/latest"
    );
}

fn stored(provider_type: &str) -> ProviderConfig {
    ProviderConfig {
        id: format!("{provider_type}-1"),
        account_id: "gcp-1".to_owned(),
        provider_type: provider_type.to_owned(),
        display_name: "Old".to_owned(),
        secret_ref: "OLD_KEY".to_owned(),
        enabled: true,
        plan: "Stored".to_owned(),
        monthly_quota: 3000,
        daily_quota: 100,
    }
}

fn edit(plan: Option<&str>, monthly: Option<i64>, daily: Option<i64>, allowance: Option<&str>) -> UpdateProvider {
    UpdateProvider {
        display_name: "New".to_owned(),
        secret_ref: " NEW_KEY ".to_owned(),
        plan: plan.map(str::to_owned),
        monthly_quota: monthly,
        daily_quota: daily,
        credit_allowance: allowance.map(str::to_owned),
    }
}

#[test]
fn edits_of_other_providers_keep_the_stored_plan() {
    let update = provider_update(&stored("openai"), "p1", edit(Some("X"), Some(1), Some(1), Some("9")), false).unwrap();
    assert_eq!(update.display_name, "New");
    assert_eq!(update.secret_ref, " NEW_KEY ");
    assert_eq!(update.plan.as_deref(), Some("Stored"));
    assert_eq!((update.monthly_quota, update.daily_quota), (Some(3000), Some(100)));
    assert_eq!(update.credit_allowance, None);
}

#[test]
fn apify_edits_keep_the_plan_and_take_the_allowance() {
    let update = provider_update(&stored("apify"), "p1", edit(None, None, None, Some("19")), true).unwrap();
    assert_eq!(update.plan.as_deref(), Some("Stored"));
    assert_eq!(update.credit_allowance.as_deref(), Some("19"));
    assert!(provider_update(&stored("apify"), "p1", edit(None, None, None, Some("0")), false).is_err());
}

#[test]
fn resend_edits_take_the_new_plan() {
    let update = provider_update(&stored("resend"), "p1", edit(Some("Pro"), Some(50000), Some(1000), None), false).unwrap();
    assert_eq!(update.plan.as_deref(), Some("Pro"));
    assert_eq!((update.monthly_quota, update.daily_quota), (Some(50000), Some(1000)));
}

#[test]
fn rejects_invalid_provider_edits() {
    let blank = UpdateProvider { display_name: " ".to_owned(), ..edit(None, None, None, None) };
    assert_eq!(provider_update(&stored("openai"), "p1", blank, false).err(), Some(RequestError::BadRequest));
    let slash = UpdateProvider { secret_ref: "a/b".to_owned(), ..edit(None, None, None, None) };
    assert_eq!(provider_update(&stored("openai"), "p1", slash, false).err(), Some(RequestError::BadRequest));
    assert_eq!(
        provider_update(&stored("resend"), "p1", edit(None, Some(1), Some(1), None), false).err(),
        Some(RequestError::BadRequest)
    );
    assert_eq!(
        provider_update(&stored("resend"), "p1", edit(Some("Pro"), Some(1), Some(-1), None), false).err(),
        Some(RequestError::BadRequest)
    );
    let full = UpdateProvider {
        secret_ref: "projects/p1/secrets/NEW_KEY/versions/2".to_owned(),
        ..edit(None, None, None, None)
    };
    assert!(provider_update(&stored("openai"), "p1", full, false).is_ok());
}

#[test]
fn refresh_collects_with_the_normalized_reference() {
    match plan_refresh("usage-project", "KEY") {
        RefreshAction::Collect(reference) => {
            assert_eq!(reference, "projects/usage-project/secrets/KEY/versions/latest")
        }
        RefreshAction::Reject(_) => panic!("a bare secret name is accepted"),
    }
}

#[test]
fn refresh_rejects_a_foreign_reference() {
    match plan_refresh("usage-project", "projects/other/secrets/KEY/versions/1") {
        RefreshAction::Reject(message) => assert_eq!(
            message,
            "Secret name or Secret Manager reference is invalid for the active Google project."
        ),
        RefreshAction::Collect(_) => panic!("a reference of another project is refused"),
    }
}

#[test]
fn refresh_counts_outcomes() {
    let mut tally = RefreshTally::new();
    tally.record(true);
    tally.record(false);
    tally.record(true);
    assert_eq!((tally.succeeded, tally.failed), (2, 1));
}

#[test]
fn a_refresh_counts_every_provider_once() {
    let tally = tally_outcomes(&vec![true, false, false, true, true]);
    assert_eq!((tally.succeeded, tally.failed), (3, 2));
    let none = tally_outcomes(&Vec::new());
    assert_eq!((none.succeeded, none.failed), (0, 0));
}
