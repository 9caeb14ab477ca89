use usage_dash::providers::openai::{costs_currency, CostItemShape, cost_window, month_to_date, current_cost_window, collection_status, common_currency, counts_as_monthly_alert, url_path};
use usage_dash::providers::{unix_timestamp, ProviderError, ProviderKind, ProviderRegistry};

#[test]
fn registry_serves_apify_openai_and_resend() {
    let registry = ProviderRegistry::default();
    assert_eq!(registry.collector("apify"), Ok(ProviderKind::Apify));
    assert_eq!(registry.collector("resend"), Ok(ProviderKind::Resend));
    assert_eq!(registry.collector("openai"), Ok(ProviderKind::OpenAi));
    assert_eq!(registry.collector("neon"), Err(ProviderError::Unsupported));
    assert_eq!(registry.collector("Apify"), Err(ProviderError::Unsupported));
}

#[test]
fn provider_error_messages() {
    assert_eq!(ProviderError::Unsupported.message(), "this provider is not implemented yet");
    assert_eq!(ProviderError::Request.message(), "provider request failed");
    assert_eq!(
        ProviderError::ResendSendingAccessOnly.message(),
        "Your Resend API key has Sending access only. Please create a Full access API key to retrieve usage statistics."
    );
    assert_eq!(ProviderError::InvalidResponse.message(), "provider returned an invalid usage response");
}

#[test]
fn logs_name_endpoints_by_path() {
    assert_eq!(url_path("https://api.openai.com/v1/organization/costs"), "/organization/costs");
    assert_eq!(url_path("https://api.openai.com/v1"), "");
    assert_eq!(url_path("https://example.com/v1/x"), "https://example.com/v1/x");
    assert_eq!(url_path("https://api"), "https://api");
}

#[test]
fn costs_default_to_usd() {
    assert_eq!(common_currency(&vec![]).unwrap(), "usd");
}

#[test]
fn costs_keep_their_shared_currency() {
    let cs = vec!["usd".to_owned(), "usd".to_owned()];
    assert_eq!(common_currency(&cs).unwrap(), "usd");
    assert_eq!(common_currency(&vec!["eur".to_owned()]).unwrap(), "eur");
}

#[test]
fn mixed_currencies_are_invalid() {
    let cs = vec!["usd".to_owned(), "usd".to_owned(), "eur".to_owned()];
    assert_eq!(common_currency(&cs), Err(ProviderError::InvalidResponse));
}

#[test]
fn only_monthly_alerts_set_the_limit() {
    assert!(counts_as_monthly_alert(None));
    assert!(counts_as_monthly_alert(Some("month")));
    assert!(!counts_as_monthly_alert(Some("day")));
    assert!(!counts_as_monthly_alert(Some("Month")));
}

#[test]
fn timestamps_are_decimal_seconds() {
    let stamp = unix_timestamp();
    assert!(!stamp.is_empty());
    assert!(stamp.chars().all(|c| c.is_ascii_digit()));
    let secs: u64 = stamp.parse().unwrap();
    assert!(secs > 1_600_000_000);
}

#[test]
fn a_missing_spend_limit_marks_the_snapshot_partial() {
    assert_eq!(collection_status(true), "ok");
    assert_eq!(collection_status(false), "partial");
}

#[test]
fn costs_are_asked_for_the_month_so_far() {
    // 2023-11-14T22:13:20Z lies in the month that starts 2023-11-01T00:00:00Z.
    assert_eq!(month_to_date(1_700_000_000), Ok((1_698_796_800, 1_700_000_000)));
    // 2024-03-01T00:00:00Z is itself the start of its month.
    assert_eq!(month_to_date(1_709_251_200), Ok((1_709_251_200, 1_709_251_200)));
    let (start, end) = current_cost_window().unwrap();
    assert!(start <= end && end - start < 31 * 86_400);
}

#[test]
fn month_starts_follow_the_gregorian_calendar() {
    // 2000-02-29T23:59:59Z, a leap day, lies in the month that starts 2000-02-01.
    assert_eq!(month_to_date(951_868_799), Ok((949_363_200, 951_868_799)));
    // One second before the epoch lies in December 1969.
    assert_eq!(month_to_date(-1), Ok((-2_678_400, -1)));
    // 2100-03-01T00:00:00Z follows a February of 28 days.
    assert_eq!(month_to_date(4_107_542_400), Ok((4_107_542_400, 4_107_542_400)));
}

#[test]
fn instants_beyond_the_calendar_have_no_month() {
    // The last day that the calendar holds is 262142-12-31.
    let last_day = 95_026_236_i64 * 86_400;
    assert_eq!(month_to_date(last_day).map(|(_, end)| end), Ok(last_day));
    assert_eq!(month_to_date(last_day + 86_400), Err(ProviderError::InvalidResponse));
    // The first day that it holds is -262143-01-01.
    let first_day = -96_465_292_i64 * 86_400;
    assert_eq!(month_to_date(first_day), Ok((first_day, first_day)));
    assert_eq!(month_to_date(first_day - 1), Err(ProviderError::InvalidResponse));
    assert_eq!(month_to_date(i64::MAX), Err(ProviderError::InvalidResponse));
    assert_eq!(month_to_date(i64::MIN), Err(ProviderError::InvalidResponse));
}

#[test]
fn a_missing_month_start_is_an_invalid_response() {
    assert_eq!(cost_window(Some(5), 9), Ok((5, 9)));
    assert_eq!(cost_window(None, 9), Err(ProviderError::InvalidResponse));
}

fn item(has_amount: bool, has_value: bool, currency: Option<&str>) -> CostItemShape {
    CostItemShape { has_amount, has_value, currency: currency.map(str::to_owned) }
}

#[test]
fn cost_responses_need_data_and_complete_items() {
    let complete = vec![item(true, true, Some("usd")), item(true, true, Some("usd"))];
    assert_eq!(costs_currency(true, &complete).unwrap(), "usd");
    assert_eq!(costs_currency(true, &vec![]).unwrap(), "usd");
    assert_eq!(costs_currency(false, &vec![]), Err(ProviderError::InvalidResponse));
    assert_eq!(costs_currency(true, &vec![item(false, false, None)]), Err(ProviderError::InvalidResponse));
    assert_eq!(costs_currency(true, &vec![item(true, false, Some("usd"))]), Err(ProviderError::InvalidResponse));
    assert_eq!(costs_currency(true, &vec![item(true, true, None)]), Err(ProviderError::InvalidResponse));
    assert_eq!(
        costs_currency(true, &vec![item(true, true, Some("usd")), item(true, true, Some("eur"))]),
        Err(ProviderError::InvalidResponse)
    );
}
