//! Validation and normalisation of what the dashboard's forms submit.

use vstd::prelude::*;
use vstd::string::*;

use crate::database::{
    calls_since, extends, is_active_account_run, is_auth_status_run, is_find_provider_run,
    is_onboarding_step_run, lemma_calls_compose,
    Database, StoreAnswer,
};
use crate::sqlite::SqlCall;
use crate::models::{Account, NewProvider, ProviderConfig, UpdateProvider};
use crate::providers::{provider_error_text, ProviderError};
use crate::secrets::gcp::is_full_reference;
use crate::secrets::SecretError;
use crate::text::{
    is_white_space, lemma_split_concat, lemma_split_without_sep, lemma_trim_ends, lemma_trim_fixed,
    decimal_seq, decimal_text, same_text, split_seq, split_text, trim_seq, trim_text, views,
};

verus! {

/// Why a request was turned away.
#[derive(Debug, Clone, Copy, PartialEq, Eq, Structural)]
pub enum RequestError {
    BadRequest,
    NotFound,
}

impl RequestError {
    /// The text that the dashboard shows for this error.
    pub fn message(&self) -> (r: String)
        ensures
            r@ == request_error_text(*self),
    {
        match self {
            RequestError::BadRequest => String::from_str("invalid request"),
            RequestError::NotFound => String::from_str("provider was not found"),
        }
    }
}

pub open spec fn request_error_text(e: RequestError) -> Seq<char> {
    match e {
        RequestError::BadRequest => "invalid request"@,
        RequestError::NotFound => "provider was not found"@,
    }
}

/// A character that a Google Cloud project id may hold.
pub open spec fn is_project_id_char(c: char) -> bool {
    ('a' <= c <= 'z') || ('0' <= c <= '9') || c == '-'
}

/// 1 to 63 characters, each a lowercase ASCII letter, digit or `-`.
pub open spec fn is_valid_project_id(s: Seq<char>) -> bool {
    &&& 0 < s.len() <= 63
    &&& forall|i: int| 0 <= i < s.len() ==> is_project_id_char(#[trigger] s[i])
}

/// A character that a Secret Manager secret name may hold.
pub open spec fn is_secret_name_char(c: char) -> bool {
    ('a' <= c <= 'z') || ('A' <= c <= 'Z') || ('0' <= c <= '9') || c == '_' || c == '-'
}

/// 1 to 255 characters, each an ASCII letter, digit, `_` or `-`.
pub open spec fn is_valid_secret_name(s: Seq<char>) -> bool {
    &&& 0 < s.len() <= 255
    &&& forall|i: int| 0 <= i < s.len() ==> is_secret_name_char(#[trigger] s[i])
}

/// Whether `value` is an acceptable Google Cloud project id.
pub fn valid_project_id(value: &str) -> (r: bool)
    ensures
        r == is_valid_project_id(value@),
{
    let n = value.unicode_len();
    if n == 0 || n > 63 {
        return false;
    }
    let mut i: usize = 0;
    while i < n
        invariant
            n == value@.len(),
            i <= n,
            forall|j: int| 0 <= j < i ==> is_project_id_char(#[trigger] value@[j]),
        decreases n - i,
    {
        let c = value.get_char(i);
        if !(('a' <= c && c <= 'z') || ('0' <= c && c <= '9') || c == '-') {
            return false;
        }
        i = i + 1;
    }
    true
}

/// Whether `value` is an acceptable Secret Manager secret name.
pub fn valid_secret_name(value: &str) -> (r: bool)
    ensures
        r == is_valid_secret_name(value@),
{
    let n = value.unicode_len();
    if n == 0 || n > 255 {
        return false;
    }
    let mut i: usize = 0;
    while i < n
        invariant
            n == value@.len(),
            i <= n,
            forall|j: int| 0 <= j < i ==> is_secret_name_char(#[trigger] value@[j]),
        decreases n - i,
    {
        let c = value.get_char(i);
        if !(('a' <= c && c <= 'z') || ('A' <= c && c <= 'Z') || ('0' <= c && c <= '9') || c
            == '_' || c == '-') {
            return false;
        }
        i = i + 1;
    }
    true
}

/// `projects/<project>/secrets/<secret>/versions/<version>`.
pub open spec fn reference_seq(project: Seq<char>, secret: Seq<char>, version: Seq<char>) -> Seq<
    char,
> {
    "projects/"@ + project + "/secrets/"@ + secret + "/versions/"@ + version
}

/// Builds the full Secret Manager reference of a secret version.
pub fn secret_reference(project: &str, secret: &str, version: &str) -> (r: String)
    ensures
        r@ == reference_seq(project@, secret@, version@),
{
    let mut r = String::from_str("projects/");
    r.append(project);
    r.append("/secrets/");
    r.append(secret);
    r.append("/versions/");
    r.append(version);
    r
}

/// What `normalize_secret_reference` makes of `provided` for the active
/// project `project_id`: a bare secret name or a reference without a version
/// points at the latest version in the active project; a full reference is
/// kept as it is; anything else, or a reference to another project, is
/// refused.
pub open spec fn normalized_reference(project_id: Seq<char>, provided: Seq<char>) -> Option<
    Seq<char>,
> {
    let value = trim_seq(provided);
    let parts = split_seq(value, '/');
    if value.len() == 0 {
        None
    } else if parts.len() == 4 && parts[0] == "projects"@ && parts[1] == project_id && parts[2]
        == "secrets"@ && is_valid_secret_name(parts[3]) {
        Some(reference_seq(project_id, parts[3], "latest"@))
    } else if parts.len() == 6 && parts[0] == "projects"@ && parts[1] == project_id && parts[2]
        == "secrets"@ && parts[4] == "versions"@ && is_valid_secret_name(parts[3])
        && parts[5].len() > 0 {
        Some(value)
    } else if parts.len() == 1 && is_valid_secret_name(parts[0]) {
        Some(reference_seq(project_id, parts[0], "latest"@))
    } else {
        None
    }
}

/// Turns what a user typed as a provider's secret into a full Secret Manager
/// reference inside the active project.
pub fn normalize_secret_reference(project_id: &str, provided: &str) -> (r: Result<
    String,
    RequestError,
>)
    ensures
        match normalized_reference(project_id@, provided@) {
            Some(v) => r matches Ok(s) && s@ == v,
            None => r == Err::<String, RequestError>(RequestError::BadRequest),
        },
{
    let value = trim_text(provided);
    if value.as_str().unicode_len() == 0 {
        return Err(RequestError::BadRequest);
    }
    let parts = split_text(value.as_str(), '/');
    let ghost pv = views(parts@);
    assert(pv.len() == parts@.len());
    let n = parts.len();
    if n == 4 {
        assert(pv[0] == parts@[0]@ && pv[1] == parts@[1]@ && pv[2] == parts@[2]@ && pv[3]
            == parts@[3]@);
        if same_text(parts[0].as_str(), "projects") && same_text(parts[1].as_str(), project_id)
            && same_text(parts[2].as_str(), "secrets") && valid_secret_name(parts[3].as_str()) {
            return Ok(secret_reference(project_id, parts[3].as_str(), "latest"));
        }
    } else if n == 6 {
        assert(pv[0] == parts@[0]@ && pv[1] == parts@[1]@ && pv[2] == parts@[2]@ && pv[3]
            == parts@[3]@ && pv[4] == parts@[4]@ && pv[5] == parts@[5]@);
        if same_text(parts[0].as_str(), "projects") && same_text(parts[1].as_str(), project_id)
            && same_text(parts[2].as_str(), "secrets") && same_text(parts[4].as_str(), "versions")
            && valid_secret_name(parts[3].as_str()) && parts[5].as_str().unicode_len() > 0 {
            return Ok(value);
        }
    } else if n == 1 {
        assert(pv[0] == parts@[0]@);
        if valid_secret_name(parts[0].as_str()) {
            return Ok(secret_reference(project_id, parts[0].as_str(), "latest"));
        }
    }
    Err(RequestError::BadRequest)
}

/// `r` names a secret version inside project `project_id`: it splits at `/`
/// into `projects`, the project, `secrets`, a valid secret name,
/// `versions` and a non-empty version.
pub open spec fn is_reference_in_project(r: Seq<char>, project_id: Seq<char>) -> bool {
    let parts = split_seq(r, '/');
    &&& parts.len() == 6
    &&& parts[0] == "projects"@
    &&& parts[1] == project_id
    &&& parts[2] == "secrets"@
    &&& is_valid_secret_name(parts[3])
    &&& parts[4] == "versions"@
    &&& parts[5].len() > 0
}

/// What the provider forms accept as a secret for the active project
/// `project_id`, once surrounding white space is dropped: a bare secret
/// name, or the full reference of a secret version inside the project.
pub open spec fn is_form_secret(project_id: Seq<char>, provided: Seq<char>) -> bool {
    is_valid_secret_name(trim_seq(provided)) || is_reference_in_project(
        trim_seq(provided),
        project_id,
    )
}

/// Whether `provided` is a secret that the provider forms accept for the
/// active project `project_id`.
pub fn form_secret_accepted(project_id: &str, provided: &str) -> (r: bool)
    ensures
        r == is_form_secret(project_id@, provided@),
{
    let value = trim_text(provided);
    if valid_secret_name(value.as_str()) {
        return true;
    }
    let parts = split_text(value.as_str(), '/');
    let ghost pv = views(parts@);
    assert(pv.len() == parts@.len());
    if parts.len() != 6 {
        return false;
    }
    assert(pv[0] == parts@[0]@ && pv[1] == parts@[1]@ && pv[2] == parts@[2]@ && pv[3]
        == parts@[3]@ && pv[4] == parts@[4]@ && pv[5] == parts@[5]@);
    same_text(parts[0].as_str(), "projects") && same_text(parts[1].as_str(), project_id)
        && same_text(parts[2].as_str(), "secrets") && valid_secret_name(parts[3].as_str())
        && same_text(parts[4].as_str(), "versions") && parts[5].as_str().unicode_len() > 0
}

proof fn lemma_no_slash_in_secret_name(s: Seq<char>)
    requires
        is_valid_secret_name(s),
    ensures
        !s.contains('/'),
{
    if s.contains('/') {
        let j = choose|j: int| 0 <= j < s.len() && s[j] == '/';
        assert(is_secret_name_char(s[j]));
    }
}

proof fn lemma_no_slash_in_project_id(s: Seq<char>)
    requires
        is_valid_project_id(s),
    ensures
        !s.contains('/'),
{
    if s.contains('/') {
        let j = choose|j: int| 0 <= j < s.len() && s[j] == '/';
        assert(is_project_id_char(s[j]));
    }
}

proof fn lemma_literal_pieces()
    ensures
        "projects/"@ == "projects"@ + seq!['/'],
        "/secrets/"@ == seq!['/'] + "secrets"@ + seq!['/'],
        "/versions/"@ == seq!['/'] + "versions"@ + seq!['/'],
        !"projects"@.contains('/'),
        !"secrets"@.contains('/'),
        !"versions"@.contains('/'),
        !"latest"@.contains('/'),
        "latest"@.len() > 0,
        "projects/"@[0] == 'p',
        "latest"@.last() == 't',
        "projects"@.len() > 0,
        "secrets"@.len() > 0,
        "versions"@.len() > 0,
{
    reveal_strlit("projects/");
    reveal_strlit("projects");
    reveal_strlit("/secrets/");
    reveal_strlit("secrets");
    reveal_strlit("/versions/");
    reveal_strlit("versions");
    reveal_strlit("latest");
    assert("projects/"@ =~= "projects"@ + seq!['/']);
    assert("/secrets/"@ =~= seq!['/'] + "secrets"@ + seq!['/']);
    assert("/versions/"@ =~= seq!['/'] + "versions"@ + seq!['/']);
    assert(!"projects"@.contains('/'));
    assert(!"secrets"@.contains('/'));
    assert(!"versions"@.contains('/'));
    assert(!"latest"@.contains('/'));
}

/// A reference built from slash-free pieces splits back into those pieces.
pub proof fn lemma_split_reference(p: Seq<char>, s: Seq<char>, v: Seq<char>)
    requires
        !p.contains('/'),
        !s.contains('/'),
        !v.contains('/'),
    ensures
        split_seq(reference_seq(p, s, v), '/') == seq![
            "projects"@,
            p,
            "secrets"@,
            s,
            "versions"@,
            v,
        ],
{
    lemma_literal_pieces();
    let sl = seq!['/'];
    let t5 = v;
    let t4 = "versions"@ + sl + t5;
    let t3 = s + sl + t4;
    let t2 = "secrets"@ + sl + t3;
    let t1 = p + sl + t2;
    let t0 = "projects"@ + sl + t1;
    assert(reference_seq(p, s, v) =~= t0);
    lemma_split_concat("versions"@, t5, '/');
    lemma_split_concat(s, t4, '/');
    lemma_split_concat("secrets"@, t3, '/');
    lemma_split_concat(p, t2, '/');
    lemma_split_concat("projects"@, t1, '/');
    lemma_split_without_sep("projects"@, '/');
    lemma_split_without_sep(p, '/');
    lemma_split_without_sep("secrets"@, '/');
    lemma_split_without_sep(s, '/');
    lemma_split_without_sep("versions"@, '/');
    lemma_split_without_sep(v, '/');
    assert(split_seq(t0, '/') =~= seq!["projects"@, p, "secrets"@, s, "versions"@, v]);
}

/// Law: whatever `normalize_secret_reference` accepts comes out as a full
/// reference to a secret version inside the active project, so a refresh
/// never reads a secret of another project.
pub proof fn law_normalized_reference_stays_in_project(project_id: Seq<char>, provided: Seq<char>)
    requires
        is_valid_project_id(project_id),
        normalized_reference(project_id, provided) is Some,
    ensures
        is_reference_in_project(normalized_reference(project_id, provided)->0, project_id),
{
    let value = trim_seq(provided);
    let parts = split_seq(value, '/');
    lemma_literal_pieces();
    lemma_no_slash_in_project_id(project_id);
    if parts.len() == 4 && parts[0] == "projects"@ && parts[1] == project_id && parts[2]
        == "secrets"@ && is_valid_secret_name(parts[3]) {
        lemma_no_slash_in_secret_name(parts[3]);
        lemma_split_reference(project_id, parts[3], "latest"@);
    } else if parts.len() == 6 && parts[0] == "projects"@ && parts[1] == project_id && parts[2]
        == "secrets"@ && parts[4] == "versions"@ && is_valid_secret_name(parts[3])
        && parts[5].len() > 0 {
    } else {
        lemma_no_slash_in_secret_name(parts[0]);
        lemma_split_reference(project_id, parts[0], "latest"@);
    }
}

/// Law: normalising an already normalised reference changes nothing.
pub proof fn law_normalize_idempotent(project_id: Seq<char>, provided: Seq<char>)
    requires
        is_valid_project_id(project_id),
        normalized_reference(project_id, provided) is Some,
    ensures
        normalized_reference(project_id, normalized_reference(project_id, provided)->0)
            == normalized_reference(project_id, provided),
{
    let r = normalized_reference(project_id, provided)->0;
    law_normalized_reference_stays_in_project(project_id, provided);
    lemma_literal_pieces();
    let value = trim_seq(provided);
    if r == value {
        lemma_trim_ends(provided);
        lemma_trim_fixed(value);
    } else {
        assert(r[0] == 'p');
        assert(r.last() == 't');
        assert(!is_white_space('p'));
        lemma_trim_fixed(r);
    }
}

/// Law: every reference that `normalize_secret_reference` hands on is one
/// that the Secret Manager resolver accepts, and it names the active project.
pub proof fn law_normalized_reference_resolvable(project_id: Seq<char>, provided: Seq<char>)
    requires
        is_valid_project_id(project_id),
        normalized_reference(project_id, provided) is Some,
    ensures
        is_full_reference(normalized_reference(project_id, provided)->0),
        split_seq(normalized_reference(project_id, provided)->0, '/')[1] == project_id,
{
    let r = normalized_reference(project_id, provided)->0;
    law_normalized_reference_stays_in_project(project_id, provided);
    lemma_literal_pieces();
    let parts = split_seq(r, '/');
    assert(forall|i: int| 0 <= i < 6 ==> (#[trigger] parts[i]).len() > 0);
}

/// What the dashboard tells the user when a provider's secret could not be
/// resolved during a refresh.
pub open spec fn secret_refresh_text(e: SecretError) -> Seq<char> {
    match e {
        SecretError::InvalidReference => "Secret Manager reference is invalid."@,
        SecretError::AuthenticationFailed => "Google Application Default Credentials are unavailable. Sign in again and check credentials before refreshing."@,
        SecretError::AccessFailed => "Google Cloud could not access this Secret Manager secret. Check that the ADC identity has Secret Manager Secret Accessor on this secret and that the Secret Manager API is enabled."@,
        SecretError::InvalidPayload => "Google Cloud returned a Secret Manager value that could not be read safely."@,
    }
}

/// The refresh error recorded when a provider's secret could not be
/// resolved.
pub fn secret_refresh_message(error: SecretError) -> (r: String)
    ensures
        r@ == secret_refresh_text(error),
{
    match error {
        SecretError::InvalidReference => String::from_str("Secret Manager reference is invalid."),
        SecretError::AuthenticationFailed => String::from_str(
            "Google Application Default Credentials are unavailable. Sign in again and check credentials before refreshing.",
        ),
        SecretError::AccessFailed => String::from_str(
            "Google Cloud could not access this Secret Manager secret. Check that the ADC identity has Secret Manager Secret Accessor on this secret and that the Secret Manager API is enabled.",
        ),
        SecretError::InvalidPayload => String::from_str(
            "Google Cloud returned a Secret Manager value that could not be read safely.",
        ),
    }
}

/// The refresh error recorded when a provider's collector failed:
/// `<display name> refresh failed: <error>`.
pub fn refresh_failure_message(display_name: &str, error: ProviderError) -> (r: String)
    ensures
        r@ == display_name@ + " refresh failed: "@ + provider_error_text(error),
{
    let mut r = String::from_str(display_name);
    r.append(" refresh failed: ");
    let text = error.message();
    r.append(text.as_str());
    r
}

/// The provider types that the dashboard accepts.
pub open spec fn is_known_provider_type(t: Seq<char>) -> bool {
    t == "apify"@ || t == "openai"@ || t == "neon"@ || t == "upstash"@ || t == "resend"@
}

/// `plan` as text, when there is one.
pub open spec fn plan_view(plan: Option<String>) -> Option<Seq<char>> {
    match plan {
        Some(p) => Some(p@),
        None => None,
    }
}

/// A Resend plan and quotas that can be saved: a non-empty plan and
/// positive monthly and daily quotas.
pub open spec fn is_resend_plan(
    plan: Option<Seq<char>>,
    monthly_quota: Option<i64>,
    daily_quota: Option<i64>,
) -> bool {
    &&& plan matches Some(p) && p.len() > 0
    &&& monthly_quota matches Some(q) && q > 0
    &&& daily_quota matches Some(q) && q > 0
}

/// Whether a new provider may be added to the account of project
/// `project_id`: the account is authenticated, the type is known, the
/// display name and secret are not blank, a Resend provider has a plan and
/// positive monthly and daily quotas, an Apify provider has a usable credit
/// allowance, and the secret is a bare secret name or the full reference of
/// a secret version in the project.
pub open spec fn accepts_new_provider(
    project_id: Seq<char>,
    auth_status: Seq<char>,
    provider_type: Seq<char>,
    display_name: Seq<char>,
    secret_ref: Seq<char>,
    plan: Option<Seq<char>>,
    monthly_quota: Option<i64>,
    daily_quota: Option<i64>,
    credit_allowance_valid: bool,
) -> bool {
    &&& auth_status == "ready"@
    &&& is_known_provider_type(provider_type)
    &&& trim_seq(display_name).len() > 0
    &&& trim_seq(secret_ref).len() > 0
    &&& provider_type == "resend"@ ==> is_resend_plan(plan, monthly_quota, daily_quota)
    &&& provider_type == "apify"@ ==> credit_allowance_valid
    &&& is_form_secret(project_id, secret_ref)
}

/// The onboarding step after adding a provider: a Resend provider finishes
/// setup, any other moves on to the alerts step.
pub open spec fn step_after_new_provider(provider_type: Seq<char>) -> i64 {
    if provider_type == "resend"@ {
        4
    } else {
        3
    }
}

fn resend_plan_given(plan: &Option<String>, monthly_quota: Option<i64>, daily_quota: Option<i64>) -> (r:
    bool)
    ensures
        r == is_resend_plan(plan_view(*plan), monthly_quota, daily_quota),
{
    let has_plan = match plan {
        Some(p) => p.as_str().unicode_len() > 0,
        None => false,
    };
    let monthly = match monthly_quota {
        Some(q) => q,
        None => 0,
    };
    let daily = match daily_quota {
        Some(q) => q,
        None => 0,
    };
    has_plan && monthly > 0 && daily > 0
}

/// Checks the form that adds a provider to the account of project
/// `project_id` and gives the onboarding step that follows it.
/// `credit_allowance_valid` tells whether the Apify monthly credit
/// allowance is a positive finite amount.
pub fn new_provider_step(
    project_id: &str,
    auth_status: &str,
    input: &NewProvider,
    credit_allowance_valid: bool,
) -> (r: Result<i64, RequestError>)
    ensures
        accepts_new_provider(
            project_id@,
            auth_status@,
            input.provider_type@,
            input.display_name@,
            input.secret_ref@,
            plan_view(input.plan),
            input.monthly_quota,
            input.daily_quota,
            credit_allowance_valid,
        ) ==> r == Ok::<i64, RequestError>(step_after_new_provider(input.provider_type@)),
        !accepts_new_provider(
            project_id@,
            auth_status@,
            input.provider_type@,
            input.display_name@,
            input.secret_ref@,
            plan_view(input.plan),
            input.monthly_quota,
            input.daily_quota,
            credit_allowance_valid,
        ) ==> r == Err::<i64, RequestError>(RequestError::BadRequest),
{
    let kind = input.provider_type.as_str();
    let known = same_text(kind, "apify") || same_text(kind, "openai") || same_text(kind, "neon")
        || same_text(kind, "upstash") || same_text(kind, "resend");
    let display_name = trim_text(input.display_name.as_str());
    let secret_ref = trim_text(input.secret_ref.as_str());
    if !same_text(auth_status, "ready") || !known || display_name.as_str().unicode_len() == 0
        || secret_ref.as_str().unicode_len() == 0 {
        return Err(RequestError::BadRequest);
    }
    let is_resend = same_text(kind, "resend");
    let is_apify = same_text(kind, "apify");
    if is_resend && !resend_plan_given(&input.plan, input.monthly_quota, input.daily_quota) {
        return Err(RequestError::BadRequest);
    }
    if is_apify && !credit_allowance_valid {
        return Err(RequestError::BadRequest);
    }
    if !form_secret_accepted(project_id, input.secret_ref.as_str()) {
        return Err(RequestError::BadRequest);
    }
    if is_resend {
        Ok(4)
    } else {
        Ok(3)
    }
}

/// Whether an edit of a provider of type `provider_type` in the account of
/// project `project_id` may be saved: the display name and secret are not
/// blank, the secret is a bare secret name or the full reference of a
/// secret version in the project, a Resend provider keeps a plan and positive monthly and
/// daily quotas, and an Apify provider keeps a usable credit allowance.
pub open spec fn accepts_provider_update(
    project_id: Seq<char>,
    provider_type: Seq<char>,
    display_name: Seq<char>,
    secret_ref: Seq<char>,
    plan: Option<Seq<char>>,
    monthly_quota: Option<i64>,
    daily_quota: Option<i64>,
    credit_allowance_valid: bool,
) -> bool {
    &&& trim_seq(display_name).len() > 0
    &&& trim_seq(secret_ref).len() > 0
    &&& is_form_secret(project_id, secret_ref)
    &&& provider_type == "resend"@ ==> is_resend_plan(plan, monthly_quota, daily_quota)
    &&& provider_type == "apify"@ ==> credit_allowance_valid
}

/// Checks the form that edits `provider`, in the account of project
/// `project_id`, and gives the edit to save: the new display name and
/// secret, with the plan and quotas of the form for a Resend provider and
/// the stored ones for any other, and the form's credit allowance for an
/// Apify or Resend provider while any other keeps its stored one. `credit_allowance_valid` tells whether
/// the Apify monthly credit allowance is a positive finite amount.
pub fn provider_update(
    provider: &ProviderConfig,
    project_id: &str,
    input: UpdateProvider,
    credit_allowance_valid: bool,
) -> (r: Result<UpdateProvider, RequestError>)
    ensures
        !accepts_provider_update(
            project_id@,
            provider.provider_type@,
            input.display_name@,
            input.secret_ref@,
            plan_view(input.plan),
            input.monthly_quota,
            input.daily_quota,
            credit_allowance_valid,
        ) ==> r == Err::<UpdateProvider, RequestError>(RequestError::BadRequest),
        accepts_provider_update(
            project_id@,
            provider.provider_type@,
            input.display_name@,
            input.secret_ref@,
            plan_view(input.plan),
            input.monthly_quota,
            input.daily_quota,
            credit_allowance_valid,
        ) ==> (r matches Ok(u) && u.display_name == input.display_name && u.secret_ref
            == input.secret_ref && if provider.provider_type@ == "resend"@ {
            u.plan == input.plan && u.monthly_quota == input.monthly_quota && u.daily_quota
                == input.daily_quota && u.credit_allowance == input.credit_allowance
        } else if provider.provider_type@ == "apify"@ {
            u.plan == Some(provider.plan) && u.monthly_quota == Some(provider.monthly_quota)
                && u.daily_quota == Some(provider.daily_quota) && u.credit_allowance
                == input.credit_allowance
        } else {
            u.plan == Some(provider.plan) && u.monthly_quota == Some(provider.monthly_quota)
                && u.daily_quota == Some(provider.daily_quota) && u.credit_allowance is None
        }),
{
    let name = trim_text(input.display_name.as_str());
    let secret = trim_text(input.secret_ref.as_str());
    if name.as_str().unicode_len() == 0 || secret.as_str().unicode_len() == 0 {
        return Err(RequestError::BadRequest);
    }
    if !form_secret_accepted(project_id, input.secret_ref.as_str()) {
        return Err(RequestError::BadRequest);
    }
    proof {
        reveal_strlit("resend");
        reveal_strlit("apify");
        assert("resend"@.len() != "apify"@.len());
    }
    if same_text(provider.provider_type.as_str(), "resend") {
        if !resend_plan_given(&input.plan, input.monthly_quota, input.daily_quota) {
            return Err(RequestError::BadRequest);
        }
        Ok(input)
    } else {
        let is_apify = same_text(provider.provider_type.as_str(), "apify");
        if is_apify && !credit_allowance_valid {
            return Err(RequestError::BadRequest);
        }
        let credit_allowance = if is_apify {
            input.credit_allowance
        } else {
            None
        };
        Ok(
            UpdateProvider {
                display_name: input.display_name,
                secret_ref: input.secret_ref,
                plan: Some(provider.plan.clone()),
                monthly_quota: Some(provider.monthly_quota),
                daily_quota: Some(provider.daily_quota),
                credit_allowance,
            },
        )
    }
}

/// The digits `d` with a comma before every group of three counted from
/// the right.
pub open spec fn grouped_digits(d: Seq<char>) -> Seq<char>
    decreases d.len(),
{
    if d.len() <= 3 {
        d
    } else {
        grouped_digits(d.take(d.len() - 3)) + seq![','] + d.skip(d.len() - 3)
    }
}

fn group_digits(digits: &str) -> (r: String)
    ensures
        r@ == grouped_digits(digits@),
    decreases digits@.len(),
{
    let n = digits.unicode_len();
    if n <= 3 {
        String::from_str(digits)
    } else {
        let head = digits.substring_char(0, n - 3);
        let mut r = group_digits(head);
        proof {
            reveal_strlit(",");
            assert(head@ =~= digits@.take(n - 3));
            assert(digits@.subrange(n - 3, n as int) =~= digits@.skip(n - 3));
        }
        r.append(",");
        r.append(digits.substring_char(n - 3, n));
        r
    }
}

/// An email count written with thousands separators, such as `12,345`.
pub fn format_email_count(count: u64) -> (r: String)
    ensures
        r@ == grouped_digits(decimal_seq(count as nat)),
{
    let digits = decimal_text(count as u128);
    group_digits(digits.as_str())
}

/// What a refresh does with one provider.
pub enum RefreshAction {
    /// Resolve this full secret reference and collect usage with it.
    Collect(String),
    /// Record this error for the provider without contacting anything.
    Reject(String),
}

/// The error recorded for a provider whose secret cannot be normalised.
pub open spec fn invalid_reference_text() -> Seq<char> {
    "Secret name or Secret Manager reference is invalid for the active Google project."@
}

/// Decides what a refresh does with a provider whose stored secret is
/// `secret_ref`, in the active project `project_id`: collect with the
/// normalised reference, or reject it.
pub fn plan_refresh(project_id: &str, secret_ref: &str) -> (r: RefreshAction)
    ensures
        match normalized_reference(project_id@, secret_ref@) {
            Some(reference) => r matches RefreshAction::Collect(s) && s@ == reference,
            None => r matches RefreshAction::Reject(m) && m@ == invalid_reference_text(),
        },
{
    match normalize_secret_reference(project_id, secret_ref) {
        Ok(reference) => RefreshAction::Collect(reference),
        Err(_) => RefreshAction::Reject(
            String::from_str(
                "Secret name or Secret Manager reference is invalid for the active Google project.",
            ),
        ),
    }
}

/// How many providers a refresh has brought up to date and how many failed.
pub struct RefreshTally {
    pub succeeded: usize,
    pub failed: usize,
}

impl RefreshTally {
    /// A refresh that has not looked at any provider yet.
    pub fn new() -> (r: RefreshTally)
        ensures
            r.succeeded == 0,
            r.failed == 0,
    {
        RefreshTally { succeeded: 0, failed: 0 }
    }

    /// Counts the outcome of one provider.
    pub fn record(&mut self, succeeded: bool)
        requires
            old(self).succeeded < usize::MAX,
            old(self).failed < usize::MAX,
        ensures
            succeeded ==> final(self).succeeded == old(self).succeeded + 1 && final(self).failed
                == old(self).failed,
            !succeeded ==> final(self).failed == old(self).failed + 1 && final(self).succeeded
                == old(self).succeeded,
    {
        if succeeded {
            self.succeeded = self.succeeded + 1;
        } else {
            self.failed = self.failed + 1;
        }
    }
}

/// How many of `outcomes` are successes.
pub open spec fn successes(outcomes: Seq<bool>) -> nat
    decreases outcomes.len(),
{
    if outcomes.len() == 0 {
        0
    } else {
        successes(outcomes.drop_last()) + if outcomes.last() {
            1nat
        } else {
            0nat
        }
    }
}

proof fn lemma_successes_bounded(outcomes: Seq<bool>)
    ensures
        successes(outcomes) <= outcomes.len(),
    decreases outcomes.len(),
{
    if outcomes.len() > 0 {
        lemma_successes_bounded(outcomes.drop_last());
    }
}

/// The tally of a refresh whose providers ended as `outcomes`, in order:
/// every provider is counted once, as a success or as a failure.
pub fn tally_outcomes(outcomes: &Vec<bool>) -> (r: RefreshTally)
    ensures
        r.succeeded == successes(outcomes@),
        r.failed == outcomes@.len() - successes(outcomes@),
        r.succeeded + r.failed == outcomes@.len(),
{
    let mut tally = RefreshTally::new();
    let mut i: usize = 0;
    while i < outcomes.len()
        invariant
            i <= outcomes@.len(),
            tally.succeeded == successes(outcomes@.take(i as int)),
            tally.succeeded + tally.failed == i,
        decreases outcomes@.len() - i,
    {
        proof {
            lemma_successes_bounded(outcomes@.take(i as int));
            assert(outcomes@.take(i as int + 1).drop_last() =~= outcomes@.take(i as int));
        }
        tally.record(outcomes[i]);
        i = i + 1;
    }
    proof {
        assert(outcomes@.take(i as int) =~= outcomes@);
        lemma_successes_bounded(outcomes@);
    }
    tally
}

/// A provider that the active account may see: it exists, there is an
/// active account, and the provider belongs to it.
pub open spec fn visible_provider(provider: Option<ProviderConfig>, account: Option<Account>) -> Option<
    ProviderConfig,
> {
    match (provider, account) {
        (Some(p), Some(a)) => if p.account_id@ == a.id@ {
            Some(p)
        } else {
            None
        },
        _ => None,
    }
}

/// Keeps `provider` only when it belongs to the active `account`.
pub fn provider_visible_to(provider: Option<ProviderConfig>, account: Option<Account>) -> (r: Option<
    ProviderConfig,
>)
    ensures
        r == visible_provider(provider, account),
{
    match (provider, account) {
        (Some(p), Some(a)) => {
            if same_text(p.account_id.as_str(), a.id.as_str()) {
                Some(p)
            } else {
                None
            }
        },
        _ => None,
    }
}

/// The provider with id `id` when it belongs to the active account;
/// `None` when there is no such provider, no active account, or the
/// provider belongs to another account. It queries the provider with id
/// `id`, then the active account, and keeps what `provider_visible_to`
/// keeps of the two answers.
pub fn provider_for_active_account(database: &mut Database, id: &str) -> (r: Result<
    Option<ProviderConfig>,
    rusqlite::Error,
>)
    ensures
        final(database).file_path() == old(database).file_path(),
        extends(final(database).log(), old(database).log()),
        r is Ok ==> is_provider_lookup_run(
            calls_since(final(database).log(), old(database).log()),
            old(database).file_path(),
            id@,
        ),
        r matches Ok(found) ==> exists|provider: Option<ProviderConfig>, account: Option<Account>|
            found == visible_provider(provider, account),
        r matches Ok(found) ==> {
            let answers = final(database).answers();
            let n = old(database).answers().len() as int;
            &&& answers.len() == n + 2
            &&& answers[n] matches StoreAnswer::Provider(provider)
            &&& answers[n + 1] matches StoreAnswer::Account(account)
            &&& found == visible_provider(provider, account)
        },
{
    let ghost before = database.log();
    let provider = database.find_provider(id)?;
    let ghost middle = database.log();
    let account = database.active_account();
    proof {
        lemma_calls_compose(database.log(), middle, before);
    }
    let account = account?;
    proof {
        let run = calls_since(database.log(), before);
        assert(run.take(2) =~= calls_since(middle, before));
        assert(run.skip(2) =~= calls_since(database.log(), middle));
    }
    Ok(provider_visible_to(provider, account))
}

/// Opening the file at `path` and querying the provider with id `id`; then
/// opening it again and querying the active account.
pub open spec fn is_provider_lookup_run(run: Seq<SqlCall>, path: Seq<char>, id: Seq<char>) -> bool {
    &&& run.len() == 4
    &&& is_find_provider_run(run.take(2), path, id)
    &&& is_active_account_run(run.skip(2), path)
}

/// The authentication error recorded when Google Application Default
/// Credentials turn out to be unavailable.
pub const CREDENTIALS_UNAVAILABLE: &'static str = "Google Application Default Credentials are unavailable. Authenticate with Google to continue.";

/// The authentication error recorded when a sign-in check finds no usable
/// credentials yet.
pub const CREDENTIALS_NOT_READY: &'static str = "Google credentials are not ready yet. Complete sign-in, then check again.";

/// Whether the saved authentication is to be checked again: there is an
/// active account, and it is marked ready.
pub fn needs_credential_check(account: &Option<Account>) -> (r: bool)
    ensures
        r == (account matches Some(a) && a.auth_status@ == "ready"@),
{
    match account {
        Some(a) => same_text(a.auth_status.as_str(), "ready"),
        None => false,
    }
}

/// Records the outcome of a sign-in check of `account`: with usable
/// credentials, the account is ready, named after its project, and its
/// onboarding is complete; without, it has failed with the advice to
/// finish signing in.
pub fn record_sign_in_check(database: &mut Database, account: &Account, credentials_ready: bool) -> (r:
    Result<(), rusqlite::Error>)
    ensures
        final(database).file_path() == old(database).file_path(),
        extends(final(database).log(), old(database).log()),
        r is Ok && credentials_ready ==> {
            let run = calls_since(final(database).log(), old(database).log());
            &&& run.len() == 4
            &&& is_auth_status_run(
                run.take(2),
                old(database).file_path(),
                account.id@,
                "ready"@,
                Some(account.project_id@),
                None,
            )
            &&& is_onboarding_step_run(run.skip(2), old(database).file_path(), account.id@, 4)
        },
        r is Ok && !credentials_ready ==> is_auth_status_run(
            calls_since(final(database).log(), old(database).log()),
            old(database).file_path(),
            account.id@,
            "failed"@,
            None,
            Some(CREDENTIALS_NOT_READY@),
        ),
{
    if credentials_ready {
        let ghost before = database.log();
        database.set_auth_status(
            account.id.as_str(),
            "ready",
            Some(account.project_id.as_str()),
            None,
        )?;
        let ghost middle = database.log();
        let step = database.set_onboarding_step(account.id.as_str(), 4);
        proof {
            lemma_calls_compose(database.log(), middle, before);
        }
        step?;
        proof {
            let run = calls_since(database.log(), before);
            assert(run.take(2) =~= calls_since(middle, before));
            assert(run.skip(2) =~= calls_since(database.log(), middle));
        }
        Ok(())
    } else {
        database.set_auth_status(account.id.as_str(), "failed", None, Some(CREDENTIALS_NOT_READY))
    }
}

/// Marks the authentication of account `account_id` failed because Google
/// Application Default Credentials are unavailable.
pub fn record_missing_credentials(database: &mut Database, account_id: &str) -> (r: Result<
    (),
    rusqlite::Error,
>)
    ensures
        final(database).file_path() == old(database).file_path(),
        extends(final(database).log(), old(database).log()),
        r is Ok ==> is_auth_status_run(
            calls_since(final(database).log(), old(database).log()),
            old(database).file_path(),
            account_id@,
            "failed"@,
            None,
            Some(CREDENTIALS_UNAVAILABLE@),
        ),
{
    database.set_auth_status(account_id, "failed", None, Some(CREDENTIALS_UNAVAILABLE))
}

/// The characters of `s` other than commas.
pub open spec fn without_commas(s: Seq<char>) -> Seq<char>
    decreases s.len(),
{
    if s.len() == 0 {
        s
    } else if s.last() == ',' {
        without_commas(s.drop_last())
    } else {
        without_commas(s.drop_last()).push(s.last())
    }
}

proof fn lemma_without_commas_concat(a: Seq<char>, b: Seq<char>)
    ensures
        without_commas(a + b) == without_commas(a) + without_commas(b),
    decreases b.len(),
{
    if b.len() == 0 {
        assert(a + b =~= a);
        assert(without_commas(a) + without_commas(b) =~= without_commas(a));
    } else {
        lemma_without_commas_concat(a, b.drop_last());
        assert((a + b).drop_last() =~= a + b.drop_last());
        if b.last() != ',' {
            assert(without_commas(a) + without_commas(b.drop_last()).push(b.last()) =~= (
            without_commas(a) + without_commas(b.drop_last())).push(b.last()));
        }
    }
}

proof fn lemma_without_commas_identity(s: Seq<char>)
    requires
        !s.contains(','),
    ensures
        without_commas(s) == s,
    decreases s.len(),
{
    if s.len() > 0 {
        assert(!s.drop_last().contains(',')) by {
            if s.drop_last().contains(',') {
                let j = choose|j: int| 0 <= j < s.drop_last().len() && s.drop_last()[j] == ',';
                assert(s[j] == ',');
            }
        }
        lemma_without_commas_identity(s.drop_last());
        assert(s[s.len() - 1] == s.last());
        assert(s.drop_last().push(s.last()) =~= s);
    }
}

/// Law: the separators of an email count are only added: taking the commas
/// out gives back the plain numeral.
pub proof fn law_grouping_keeps_digits(d: Seq<char>)
    requires
        !d.contains(','),
    ensures
        without_commas(grouped_digits(d)) == d,
    decreases d.len(),
{
    if d.len() <= 3 {
        lemma_without_commas_identity(d);
    } else {
        let head = d.take(d.len() - 3);
        let tail = d.skip(d.len() - 3);
        assert(!head.contains(',')) by {
            if head.contains(',') {
                let j = choose|j: int| 0 <= j < head.len() && head[j] == ',';
                assert(d[j] == ',');
            }
        }
        assert(!tail.contains(',')) by {
            if tail.contains(',') {
                let j = choose|j: int| 0 <= j < tail.len() && tail[j] == ',';
                assert(d[j + d.len() - 3] == ',');
            }
        }
        law_grouping_keeps_digits(head);
        lemma_without_commas_concat(grouped_digits(head) + seq![','], tail);
        lemma_without_commas_concat(grouped_digits(head), seq![',']);
        assert(without_commas(seq![',']) =~= Seq::<char>::empty()) by {
            let one = seq![','];
            assert(one.last() == ',');
            assert(one.drop_last() =~= Seq::<char>::empty());
            assert(without_commas(one.drop_last()) =~= Seq::<char>::empty());
        }
        lemma_without_commas_identity(tail);
        assert(head + tail =~= d);
    }
}

/// Law: a provider that the form accepts has a secret that a refresh can
/// resolve inside the active project.
pub proof fn law_accepted_secret_resolves(
    project_id: Seq<char>,
    auth_status: Seq<char>,
    provider_type: Seq<char>,
    display_name: Seq<char>,
    secret_ref: Seq<char>,
    plan: Option<Seq<char>>,
    monthly_quota: Option<i64>,
    daily_quota: Option<i64>,
    credit_allowance_valid: bool,
)
    requires
        is_valid_project_id(project_id),
        accepts_new_provider(
            project_id,
            auth_status,
            provider_type,
            display_name,
            secret_ref,
            plan,
            monthly_quota,
            daily_quota,
            credit_allowance_valid,
        ),
    ensures
        normalized_reference(project_id, secret_ref) is Some,
        is_reference_in_project(normalized_reference(project_id, secret_ref)->0, project_id),
{
    let value = trim_seq(secret_ref);
    if is_valid_secret_name(value) {
        lemma_no_slash_in_secret_name(value);
        lemma_split_without_sep(value, '/');
    }
    law_normalized_reference_stays_in_project(project_id, secret_ref);
}

/// Law: an email count of more than three digits is split by its commas
/// into groups of digits of which the first has one to three digits and
/// every other exactly three, so a comma stands before a digit exactly when
/// the digits from it to the end are a positive multiple of three; a
/// numeral of `n` digits has `(n + 2) / 3` groups.
pub proof fn law_groups_of_three(d: Seq<char>)
    requires
        d.len() > 0,
        !d.contains(','),
    ensures
        split_seq(grouped_digits(d), ',').len() == (d.len() + 2) / 3,
        1 <= split_seq(grouped_digits(d), ',')[0].len() <= 3,
        forall|i: int|
            1 <= i < split_seq(grouped_digits(d), ',').len() ==> (#[trigger] split_seq(
                grouped_digits(d),
                ',',
            )[i]).len() == 3,
    decreases d.len(),
{
    if d.len() <= 3 {
        lemma_split_without_sep(d, ',');
    } else {
        let head = d.take(d.len() - 3);
        let tail = d.skip(d.len() - 3);
        assert(!head.contains(',')) by {
            if head.contains(',') {
                let j = choose|j: int| 0 <= j < head.len() && head[j] == ',';
                assert(d[j] == ',');
            }
        }
        assert(!tail.contains(',')) by {
            if tail.contains(',') {
                let j = choose|j: int| 0 <= j < tail.len() && tail[j] == ',';
                assert(d[j + d.len() - 3] == ',');
            }
        }
        law_groups_of_three(head);
        lemma_split_concat(grouped_digits(head), tail, ',');
        lemma_split_without_sep(tail, ',');
        let front = split_seq(grouped_digits(head), ',');
        assert(split_seq(grouped_digits(d), ',') == front + seq![tail]);
        assert forall|i: int|
            1 <= i < split_seq(grouped_digits(d), ',').len() implies (#[trigger] split_seq(
                grouped_digits(d),
                ',',
            )[i]).len() == 3 by {
            if i < front.len() {
                assert(split_seq(grouped_digits(d), ',')[i] == front[i]);
            }
        }
    }
}

/// Law: a secret name is 1 to 255 characters, each an ASCII letter of
/// either case, an ASCII digit, `_` or `-`; nothing else is one.
pub proof fn law_secret_names_are_ascii_words(s: Seq<char>)
    ensures
        is_valid_secret_name(s) <==> (0 < s.len() <= 255 && forall|i: int|
            0 <= i < s.len() ==> ('a' <= #[trigger] s[i] <= 'z') || ('A' <= s[i] <= 'Z') || (
            '0' <= s[i] <= '9') || s[i] == '_' || s[i] == '-'),
{
}

/// Law: a provider of any of the five types that the dashboard knows
/// (`apify`, `openai`, `neon`, `upstash`, `resend`) can be added to an
/// authenticated account with a non-blank display name and a bare secret
/// name, given a Resend plan with positive quotas for Resend and a usable
/// credit allowance for Apify; a provider of any other type never can.
pub proof fn law_every_known_type_can_be_added(
    project_id: Seq<char>,
    provider_type: Seq<char>,
    display_name: Seq<char>,
    secret_ref: Seq<char>,
    plan: Option<Seq<char>>,
    monthly_quota: Option<i64>,
    daily_quota: Option<i64>,
    credit_allowance_valid: bool,
)
    ensures
        ({
            &&& provider_type == "apify"@ || provider_type == "openai"@ || provider_type == "neon"@
                || provider_type == "upstash"@ || provider_type == "resend"@
            &&& trim_seq(display_name).len() > 0
            &&& is_valid_secret_name(trim_seq(secret_ref))
            &&& provider_type == "resend"@ ==> (plan matches Some(p) && p.len() > 0)
                && (monthly_quota matches Some(q) && q > 0) && (daily_quota matches Some(q) && q > 0)
            &&& provider_type == "apify"@ ==> credit_allowance_valid
        }) ==> accepts_new_provider(
            project_id,
            "ready"@,
            provider_type,
            display_name,
            secret_ref,
            plan,
            monthly_quota,
            daily_quota,
            credit_allowance_valid,
        ),
        !(provider_type == "apify"@ || provider_type == "openai"@ || provider_type == "neon"@
            || provider_type == "upstash"@ || provider_type == "resend"@) ==> !accepts_new_provider(
            project_id,
            "ready"@,
            provider_type,
            display_name,
            secret_ref,
            plan,
            monthly_quota,
            daily_quota,
            credit_allowance_valid,
        ),
{
}

/// Law: of the two lookups, the provider found is kept exactly when there
/// is an active account and the provider's account is that account; a
/// provider of another account, or any provider while no account is
/// active, is not.
pub proof fn law_own_provider_is_visible(provider: Option<ProviderConfig>, account: Option<Account>)
    ensures
        (provider matches Some(p) && account matches Some(a) && p.account_id@ == a.id@)
            ==> visible_provider(provider, account) == provider,
        visible_provider(provider, account) matches Some(v) ==> provider == Some(v),
        visible_provider(provider, account) matches Some(v) ==> (account matches Some(a)
            && v.account_id@ == a.id@),
{
}

} // verus!
