//! Where the dashboard listens and where it keeps its database.

use vstd::prelude::*;
use vstd::string::*;

use crate::text::{append_decimal, decimal_seq};

verus! {

/// The dashboard's settings.
pub struct Config {
    pub bind_address: String,
    pub database_path: String,
}

/// A setting that cannot be used.
#[derive(Debug, Clone, Copy, PartialEq, Eq, Structural)]
pub enum ConfigError {
    InvalidPort,
}

impl ConfigError {
    /// The description of this error.
    pub fn message(&self) -> (r: String)
        ensures
            r@ == "USAGE_DASH_PORT must be an integer from 1 through 65535"@,
    {
        String::from_str("USAGE_DASH_PORT must be an integer from 1 through 65535")
    }
}

pub open spec fn is_digit(c: char) -> bool {
    '0' <= c <= '9'
}

pub open spec fn digit_value(c: char) -> int {
    c as int - '0' as int
}

/// The number that the decimal digits `s` write.
pub open spec fn digits_value(s: Seq<char>) -> nat
    decreases s.len(),
{
    if s.len() == 0 {
        0
    } else {
        (digits_value(s.drop_last()) * 10 + digit_value(s.last())) as nat
    }
}

pub open spec fn all_digits(s: Seq<char>) -> bool {
    forall|i: int| 0 <= i < s.len() ==> is_digit(#[trigger] s[i])
}

/// The digits of a numeral: the text after an optional leading `+`.
pub open spec fn u16_digits(s: Seq<char>) -> Seq<char> {
    if s.len() > 0 && s[0] == '+' {
        s.drop_first()
    } else {
        s
    }
}

/// What `str::parse::<u16>` makes of `s`: an optional `+`, then one or more
/// ASCII digits whose value fits in 16 bits.
pub open spec fn parsed_u16(s: Seq<char>) -> Option<u16> {
    let digits = u16_digits(s);
    if digits.len() > 0 && all_digits(digits) && digits_value(digits) <= 65535 {
        Some(digits_value(digits) as u16)
    } else {
        None
    }
}

/// The port the dashboard listens on: 3000 when none is set, otherwise the
/// setting read as a 16-bit number other than 0; `None` when the setting is
/// unusable.
pub open spec fn resolved_port(setting: Option<Seq<char>>) -> Option<u16> {
    match setting {
        None => Some(3000),
        Some(text) => match parsed_u16(text) {
            Some(port) => if port != 0 {
                Some(port)
            } else {
                None
            },
            None => None,
        },
    }
}

/// `127.0.0.1:<port>`.
pub open spec fn bind_address_seq(port: u16) -> Seq<char> {
    "127.0.0.1:"@ + decimal_seq(port as nat)
}

/// The database file used when none is set.
pub open spec fn default_database_path() -> Seq<char> {
    "data/usage-dashboard.sqlite3"@
}

proof fn lemma_digits_value_grows(s: Seq<char>, k: int)
    requires
        0 <= k <= s.len(),
        all_digits(s),
    ensures
        digits_value(s.take(k)) <= digits_value(s),
    decreases s.len() - k,
{
    if k < s.len() {
        lemma_digits_value_grows(s.drop_last(), k);
        assert(s.drop_last().take(k) =~= s.take(k));
        assert(is_digit(s[s.len() - 1]));
    } else {
        assert(s.take(k) =~= s);
    }
}

/// Reads `text` as `str::parse::<u16>` does.
pub fn parse_u16(text: &str) -> (r: Option<u16>)
    ensures
        r == parsed_u16(text@),
{
    let n = text.unicode_len();
    let mut i: usize = 0;
    if n > 0 && text.get_char(0) == '+' {
        i = 1;
    }
    let start = i;
    let ghost digits = text@.skip(start as int);
    proof {
        assert(digits =~= u16_digits(text@));
    }
    if start == n {
        return None;
    }
    let mut value: u32 = 0;
    while i < n
        invariant
            n == text@.len(),
            start <= i <= n,
            start < n,
            digits == text@.skip(start as int),
            digits == u16_digits(text@),
            all_digits(digits.take(i - start)),
            value == digits_value(digits.take(i - start)),
            value <= 65535,
        decreases n - i,
    {
        let c = text.get_char(i);
        let ghost prefix = digits.take(i - start);
        proof {
            assert(digits.take(i + 1 - start).drop_last() =~= prefix);
            assert(digits.take(i + 1 - start).last() == c);
        }
        if !('0' <= c && c <= '9') {
            proof {
                assert(digits[i - start] == c);
            }
            return None;
        }
        let d = (c as u32) - ('0' as u32);
        value = value * 10 + d;
        proof {
            assert(all_digits(digits.take(i + 1 - start)));
        }
        if value > 65535 {
            proof {
                if all_digits(digits) {
                    lemma_digits_value_grows(digits, i + 1 - start);
                }
            }
            return None;
        }
        i = i + 1;
    }
    proof {
        assert(digits.take(n - start) =~= digits);
    }
    Some(value as u16)
}

impl Config {
    /// The settings made of the two configuration values: the port setting
    /// and the database path, each absent when unset. The host is always the
    /// loopback address.
    pub fn from_settings(port: Option<String>, database_path: Option<String>) -> (r: Result<
        Config,
        ConfigError,
    >)
        ensures
            match resolved_port(
                match port {
                    Some(p) => Some(p@),
                    None => None,
                },
            ) {
                Some(p) => r matches Ok(c) && c.bind_address@ == bind_address_seq(p)
                    && c.database_path@ == match database_path {
                    Some(d) => d@,
                    None => default_database_path(),
                },
                None => r == Err::<Config, ConfigError>(ConfigError::InvalidPort),
            },
    {
        let resolved: u16 = match &port {
            None => 3000,
            Some(text) => match parse_u16(text.as_str()) {
                Some(value) => {
                    if value == 0 {
                        return Err(ConfigError::InvalidPort);
                    }
                    value
                },
                None => return Err(ConfigError::InvalidPort),
            },
        };
        let mut bind_address = String::from_str("127.0.0.1:");
        append_decimal(&mut bind_address, resolved as u128);
        let database_path = match database_path {
            Some(path) => path,
            None => String::from_str("data/usage-dashboard.sqlite3"),
        };
        Ok(Config { bind_address, database_path })
    }
}

/// Law: the dashboard listens on the loopback interface only, on a port
/// other than 0, whatever the port setting holds.
pub proof fn law_binds_only_to_loopback(setting: Option<Seq<char>>)
    requires
        resolved_port(setting) is Some,
    ensures
        resolved_port(setting)->0 != 0,
        "127.0.0.1:"@.is_prefix_of(bind_address_seq(resolved_port(setting)->0)),
{
    let address = bind_address_seq(resolved_port(setting)->0);
    assert forall|i: int| 0 <= i < "127.0.0.1:"@.len() implies "127.0.0.1:"@[i] == address[i] by {}
}

} // verus!
