//! The records that the dashboard stores and the forms that create them.

use vstd::prelude::*;

verus! {

/// A usage provider that an account has configured. `secret_ref` names a
/// Secret Manager secret; the credential itself is never stored. `plan` and
/// the quotas are the Resend plan's limits (empty and 0 for other types).
#[derive(Debug, Clone)]
pub struct ProviderConfig {
    pub id: String,
    pub account_id: String,
    pub provider_type: String,
    pub display_name: String,
    pub secret_ref: String,
    pub enabled: bool,
    pub plan: String,
    pub monthly_quota: i64,
    pub daily_quota: i64,
}

/// The form that adds a provider. `credit_allowance` is an Apify monthly
/// credit allowance in USD, written as a decimal number.
pub struct NewProvider {
    pub provider_type: String,
    pub display_name: String,
    pub secret_ref: String,
    pub plan: Option<String>,
    pub monthly_quota: Option<i64>,
    pub daily_quota: Option<i64>,
    pub credit_allowance: Option<String>,
}

/// The form that edits a provider; a field that is `None` keeps the stored
/// value. `credit_allowance` is written as a decimal number.
pub struct UpdateProvider {
    pub display_name: String,
    pub secret_ref: String,
    pub plan: Option<String>,
    pub monthly_quota: Option<i64>,
    pub daily_quota: Option<i64>,
    pub credit_allowance: Option<String>,
}

/// A Google Cloud project whose Secret Manager holds the credentials.
#[derive(Debug, Clone)]
pub struct Account {
    pub id: String,
    pub project_id: String,
    pub project_name: Option<String>,
    pub auth_status: String,
    pub auth_error: Option<String>,
}

/// How far an account has come through setup.
#[derive(Debug, Clone)]
pub struct Onboarding {
    pub current_step: i64,
}

/// The form that creates an account.
pub struct NewAccount {
    pub project_id: String,
}

/// The form that moves the active account to another project.
pub struct UpdateAccount {
    pub project_id: String,
}

} // verus!
