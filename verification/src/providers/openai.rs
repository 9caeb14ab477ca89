//! The OpenAI collector: what it computes from the organization's cost
//! buckets and spend alerts apart from the amounts.

use vstd::prelude::*;
use vstd::string::*;

use crate::clock::unix_seconds;
use crate::providers::ProviderError;
use crate::text::same_text;

verus! {

/// Collects OpenAI's month-to-date costs and the monthly spend limit.
pub struct OpenAiProvider;

/// The day number (days since 1970-01-01) of the first day of the month
/// that holds day `days`, in the proleptic Gregorian calendar: the day is
/// read as a date counted in 400-year eras from 0000-03-01, and its day of
/// the month, less one, is taken off.
pub open spec fn first_of_month(days: int) -> int {
    let z = days + 719468;
    let era = z / 146097;
    let doe = z - era * 146097;
    let yoe = (doe - doe / 1460 + doe / 36524 - doe / 146096) / 365;
    let doy = doe - (365 * yoe + yoe / 4 - yoe / 100);
    let mp = (5 * doy + 2) / 153;
    days - (doy - (153 * mp + 2) / 5)
}

/// The Unix time, in seconds, of midnight UTC on the first day of the month
/// that holds the instant `unix_secs`, when its date lies in the years that
/// chrono represents (-262143 to 262142, days -96465292 to 95026236 of the
/// Unix epoch); `None` otherwise.
pub open spec fn utc_month_start(unix_secs: i64) -> Option<i64> {
    let days = unix_secs / 86400;
    if -96465292 <= days <= 95026236 {
        Some((first_of_month(days) * 86400) as i64)
    } else {
        None
    }
}

/// Wraps chrono's calendar: `DateTime::from_timestamp`, which is `None`
/// outside the dates chrono represents, then the first day of that date's
/// month (`Datelike::with_day`), at midnight (`NaiveDate::and_hms_opt`), in
/// UTC, as a timestamp. chrono's dates follow the proleptic Gregorian
/// calendar, which `utc_month_start` states.
#[verifier::external_body]
fn month_start(unix_secs: i64) -> (r: Option<i64>)
    ensures
        r == utc_month_start(unix_secs),
{
    let date = chrono::DateTime::from_timestamp(unix_secs, 0)?.date_naive();
    Some(chrono::Datelike::with_day(&date, 1)?.and_hms_opt(0, 0, 0)?.and_utc().timestamp())
}

/// The window of the costs request from the start of the month, when the
/// calendar gave one, to `now`; without a start the response cannot be
/// asked for.
pub fn cost_window(start: Option<i64>, now: i64) -> (r: Result<(i64, i64), ProviderError>)
    ensures
        match start {
            Some(s) => r == Ok::<(i64, i64), ProviderError>((s, now)),
            None => r == Err::<(i64, i64), ProviderError>(ProviderError::InvalidResponse),
        },
{
    match start {
        Some(s) => Ok((s, now)),
        None => Err(ProviderError::InvalidResponse),
    }
}

/// The window of the costs request for the instant `now`: from the start of
/// its month to `now`.
pub fn month_to_date(now: i64) -> (r: Result<(i64, i64), ProviderError>)
    ensures
        r == cost_window_spec(utc_month_start(now), now),
{
    cost_window(month_start(now), now)
}

pub open spec fn cost_window_spec(start: Option<i64>, now: i64) -> Result<(i64, i64), ProviderError> {
    match start {
        Some(s) => Ok((s, now)),
        None => Err(ProviderError::InvalidResponse),
    }
}

/// The window of the costs request now: the month so far, read from the
/// system clock (a clock before the Unix epoch reads as the epoch).
pub fn current_cost_window() -> (r: Result<(i64, i64), ProviderError>)
    ensures
        r matches Ok((start, end)) ==> 0 <= end && utc_month_start(end) == Some(start),
        r is Err ==> r == Err::<(i64, i64), ProviderError>(ProviderError::InvalidResponse),
{
    let secs = unix_seconds();
    if secs > i64::MAX as u64 {
        return Err(ProviderError::InvalidResponse);
    }
    month_to_date(secs as i64)
}

/// The part of an API URL that log lines name: the URL without the OpenAI
/// API base, or the whole URL when it does not start with it.
pub open spec fn url_path_seq(url: Seq<char>) -> Seq<char> {
    let base = "https://api.openai.com/v1"@;
    if base.is_prefix_of(url) {
        url.skip(base.len() as int)
    } else {
        url
    }
}

/// `url` without the OpenAI API base.
pub fn url_path(url: &str) -> (r: &str)
    ensures
        r@ == url_path_seq(url@),
{
    let base = "https://api.openai.com/v1";
    let n = url.unicode_len();
    let m = base.unicode_len();
    if m <= n {
        let head = url.substring_char(0, m);
        if same_text(head, base) {
            proof {
                assert(base@.is_prefix_of(url@)) by {
                    assert forall|i: int| 0 <= i < base@.len() implies base@[i] == url@[i] by {
                        assert(head@[i] == url@[i]);
                    }
                }
            }
            return url.substring_char(m, n);
        } else {
            proof {
                if base@.is_prefix_of(url@) {
                    assert(head@ =~= base@);
                }
            }
        }
    }
    url
}

/// The currency that a list of cost items shares: `usd` when there is no
/// item, the items' currency when they all agree, and `None` when two
/// differ.
pub open spec fn shared_currency(currencies: Seq<Seq<char>>) -> Option<Seq<char>> {
    if currencies.len() == 0 {
        Some("usd"@)
    } else if forall|i: int| 0 <= i < currencies.len() ==> #[trigger] currencies[i] == currencies[0] {
        Some(currencies[0])
    } else {
        None
    }
}

/// The currency of the month's costs, from the currencies of the cost
/// items in the order they came; items in different currencies make the
/// response invalid.
pub fn common_currency(currencies: &Vec<String>) -> (r: Result<String, ProviderError>)
    ensures
        match shared_currency(currencies@.map_values(|c: String| c@)) {
            Some(c) => r matches Ok(s) && s@ == c,
            None => r == Err::<String, ProviderError>(ProviderError::InvalidResponse),
        },
{
    let ghost cs = currencies@.map_values(|c: String| c@);
    if currencies.len() == 0 {
        return Ok(String::from_str("usd"));
    }
    let first = currencies[0].as_str();
    let mut i: usize = 1;
    while i < currencies.len()
        invariant
            cs == currencies@.map_values(|c: String| c@),
            currencies@.len() > 0,
            first@ == cs[0],
            1 <= i <= currencies@.len(),
            forall|j: int| 0 <= j < i ==> #[trigger] cs[j] == cs[0],
        decreases currencies@.len() - i,
    {
        if !same_text(currencies[i].as_str(), first) {
            proof {
                assert(cs[i as int] != cs[0]);
            }
            return Err(ProviderError::InvalidResponse);
        }
        i = i + 1;
    }
    Ok(currencies[0].clone())
}

/// Law: when the month's costs have a currency, every cost item is in it.
pub proof fn law_costs_share_one_currency(currencies: Seq<Seq<char>>)
    requires
        currencies.len() > 0,
        shared_currency(currencies) is Some,
    ensures
        forall|i: int| 0 <= i < currencies.len() ==> #[trigger] currencies[i] == shared_currency(
            currencies,
        )->0,
{
}

/// The status of an OpenAI snapshot: `ok` when the spend limit was read,
/// `partial` when only the costs were.
pub fn collection_status(spend_limit_known: bool) -> (r: String)
    ensures
        r@ == (if spend_limit_known {
            "ok"@
        } else {
            "partial"@
        }),
{
    if spend_limit_known {
        String::from_str("ok")
    } else {
        String::from_str("partial")
    }
}

/// What a cost item of the costs response holds, apart from the amount
/// itself: whether it has an `amount` object, whether that has a numeric
/// `value`, and its `currency` text if it has one.
pub struct CostItemShape {
    pub has_amount: bool,
    pub has_value: bool,
    pub currency: Option<String>,
}

/// Every cost item has an amount with a value and a currency.
pub open spec fn cost_items_complete(items: Seq<CostItemShape>) -> bool {
    forall|i: int|
        0 <= i < items.len() ==> (#[trigger] items[i]).has_amount && items[i].has_value
            && items[i].currency is Some
}

/// The currencies of complete cost items, in order.
pub open spec fn item_currencies(items: Seq<CostItemShape>) -> Seq<Seq<char>> {
    items.map_values(|item: CostItemShape| item.currency->0@)
}

/// Checks the shape of a costs response — it has a `data` array, and
/// every cost item in it has an amount with a value and a currency, all
/// the same — and gives the currency of the costs (`usd` when there are
/// none).
pub fn costs_currency(has_data: bool, items: &Vec<CostItemShape>) -> (r: Result<String, ProviderError>)
    ensures
        !has_data || !cost_items_complete(items@) ==> r == Err::<String, ProviderError>(
            ProviderError::InvalidResponse,
        ),
        has_data && cost_items_complete(items@) ==> match shared_currency(item_currencies(items@)) {
            Some(c) => r matches Ok(s) && s@ == c,
            None => r == Err::<String, ProviderError>(ProviderError::InvalidResponse),
        },
{
    if !has_data {
        return Err(ProviderError::InvalidResponse);
    }
    let mut currencies: Vec<String> = Vec::new();
    let mut i: usize = 0;
    while i < items.len()
        invariant
            i <= items@.len(),
            currencies@.len() == i,
            forall|j: int|
                0 <= j < i ==> (#[trigger] items@[j]).has_amount && items@[j].has_value
                    && items@[j].currency is Some && currencies@[j]@ == items@[j].currency->0@,
        decreases items@.len() - i,
    {
        let item = &items[i];
        match &item.currency {
            Some(currency) => {
                if !item.has_amount || !item.has_value {
                    return Err(ProviderError::InvalidResponse);
                }
                currencies.push(currency.clone());
            },
            None => {
                return Err(ProviderError::InvalidResponse);
            },
        }
        i = i + 1;
    }
    proof {
        assert(currencies@.map_values(|c: String| c@) =~= item_currencies(items@));
    }
    common_currency(&currencies)
}

/// A spend alert counts toward the monthly limit when it has no interval or
/// a monthly one.
pub open spec fn is_monthly_alert(interval: Option<Seq<char>>) -> bool {
    match interval {
        None => true,
        Some(text) => text == "month"@,
    }
}

/// Whether a spend alert with this interval sets the monthly limit.
pub fn counts_as_monthly_alert(interval: Option<&str>) -> (r: bool)
    ensures
        r == is_monthly_alert(
            match interval {
                Some(t) => Some(t@),
                None => None,
            },
        ),
{
    match interval {
        None => true,
        Some(text) => same_text(text, "month"),
    }
}

} // verus!
