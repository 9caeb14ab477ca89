//! The usage collectors: which one serves a provider type, how their
//! failures read, and the parts of their work that are plain computation.

pub mod apify;
pub mod openai;
pub mod resend;

use vstd::prelude::*;
use vstd::string::*;

use crate::clock::unix_seconds;
use crate::text::{decimal_seq, decimal_text, same_text};

pub use apify::ApifyProvider;
pub use openai::OpenAiProvider;
pub use resend::ResendProvider;

verus! {

/// Why collecting usage from a provider failed.
#[derive(Debug, Clone, Copy, PartialEq, Eq, Structural)]
pub enum ProviderError {
    Unsupported,
    Request,
    ResendSendingAccessOnly,
    InvalidResponse,
}

pub open spec fn provider_error_text(e: ProviderError) -> Seq<char> {
    match e {
        ProviderError::Unsupported => "this provider is not implemented yet"@,
        ProviderError::Request => "provider request failed"@,
        ProviderError::ResendSendingAccessOnly => "Your Resend API key has Sending access only. Please create a Full access API key to retrieve usage statistics."@,
        ProviderError::InvalidResponse => "provider returned an invalid usage response"@,
    }
}

impl ProviderError {
    /// The description of this error.
    pub fn message(&self) -> (r: String)
        ensures
            r@ == provider_error_text(*self),
    {
        match self {
            ProviderError::Unsupported => String::from_str("this provider is not implemented yet"),
            ProviderError::Request => String::from_str("provider request failed"),
            ProviderError::ResendSendingAccessOnly => String::from_str(
                "Your Resend API key has Sending access only. Please create a Full access API key to retrieve usage statistics.",
            ),
            ProviderError::InvalidResponse => String::from_str(
                "provider returned an invalid usage response",
            ),
        }
    }
}

/// The collector that serves a provider.
#[derive(Debug, Clone, Copy, PartialEq, Eq, Structural)]
pub enum ProviderKind {
    Apify,
    OpenAi,
    Resend,
}

/// The collector for `provider_type`, if one is registered.
pub open spec fn registered_collector(provider_type: Seq<char>) -> Option<ProviderKind> {
    if provider_type == "apify"@ {
        Some(ProviderKind::Apify)
    } else if provider_type == "openai"@ {
        Some(ProviderKind::OpenAi)
    } else if provider_type == "resend"@ {
        Some(ProviderKind::Resend)
    } else {
        None
    }
}

/// The registered collectors.
#[derive(Default)]
pub struct ProviderRegistry;

impl ProviderRegistry {
    /// The collector that serves `provider_type`; a type without one is
    /// unsupported.
    pub fn collector(&self, provider_type: &str) -> (r: Result<ProviderKind, ProviderError>)
        ensures
            match registered_collector(provider_type@) {
                Some(kind) => r == Ok::<ProviderKind, ProviderError>(kind),
                None => r == Err::<ProviderKind, ProviderError>(ProviderError::Unsupported),
            },
    {
        if same_text(provider_type, "apify") {
            Ok(ProviderKind::Apify)
        } else if same_text(provider_type, "openai") {
            Ok(ProviderKind::OpenAi)
        } else if same_text(provider_type, "resend") {
            Ok(ProviderKind::Resend)
        } else {
            Err(ProviderError::Unsupported)
        }
    }
}

/// The time of a snapshot: decimal seconds since the Unix epoch.
pub fn unix_timestamp() -> (r: String)
    ensures
        exists|secs: u64| r@ == decimal_seq(secs as nat),
{
    let secs = unix_seconds();
    decimal_text(secs as u128)
}

} // verus!
