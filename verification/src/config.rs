//! The server's settings, from the values of its environment variables.
//! Reading the environment is the caller's part; what the values mean is
//! decided here.
use crate::clock::{duration_from_millis, duration_micros, millis_duration};
use crate::protocol::{chars_of, trimmed, trimmed_chars};
use std::time::Duration;
use vstd::prelude::*;

verus! {

pub const DEFAULT_BIND_ADDRESS: &'static str = "127.0.0.1:3000";

pub const DEFAULT_SCHEDULE_LEAD_TIME_MS: u64 = 150;

pub const DEFAULT_TLS_CERT_DIR: &'static str = "certs";

#[derive(Debug)]
pub struct Config {
    pub bind_address: String,
    pub schedule_lead_time: Duration,
    /// Serve over HTTPS (self-signed, auto-generated) instead of plain HTTP.
    /// Needed for any client reaching the server over a LAN IP rather than
    /// localhost, since browsers only expose powerful audio APIs in a secure
    /// context.
    pub tls_enabled: bool,
    /// Where the self-signed certificate, its key and the list of names it
    /// was generated for are cached across restarts.
    pub tls_cert_dir: String,
}

/// An ASCII decimal digit.
pub open spec fn is_decimal_digit(c: char) -> bool {
    48 <= (c as u32) && (c as u32) <= 57
}

/// Every character of `digits` is a decimal digit.
pub open spec fn all_decimal_digits(digits: Seq<char>) -> bool {
    forall|i: int| 0 <= i < digits.len() ==> is_decimal_digit(#[trigger] digits[i])
}

/// `s` without one leading `+`, if it has one.
pub open spec fn without_plus_sign(s: Seq<char>) -> Seq<char> {
    if s.len() > 0 && s[0] == '+' {
        s.drop_first()
    } else {
        s
    }
}

/// The number that a string of decimal digits writes.
pub open spec fn digits_value(digits: Seq<char>) -> int
    decreases digits.len(),
{
    if digits.len() == 0 {
        0
    } else {
        digits_value(digits.drop_last()) * 10 + ((digits.last() as u32) - 48)
    }
}

/// The value `u64::from_str` gives for the text `s`, `None` where it
/// reports an error. As its documentation states, the text must be an
/// optional `+` followed by one or more decimal digits and nothing else
/// (whitespace included), and the value must fit in a `u64`.
pub open spec fn parsed_u64(s: Seq<char>) -> Option<u64> {
    let digits = without_plus_sign(s);
    if digits.len() > 0 && all_decimal_digits(digits) && digits_value(digits) <= u64::MAX {
        Some(digits_value(digits) as u64)
    } else {
        None
    }
}

/// A prefix of a string of decimal digits writes no more than the whole.
proof fn lemma_digits_value_of_prefix(digits: Seq<char>, k: int)
    requires
        0 <= k <= digits.len(),
        forall|i: int| 0 <= i < digits.len() ==> is_decimal_digit(#[trigger] digits[i]),
    ensures
        0 <= digits_value(digits.take(k)) <= digits_value(digits),
    decreases digits.len(),
{
    if k == digits.len() {
        assert(digits.take(k) =~= digits);
        if k > 0 {
            lemma_digits_value_of_prefix(digits.drop_last(), k - 1);
            assert(digits.drop_last().take(k - 1) =~= digits.drop_last());
        }
    } else {
        lemma_digits_value_of_prefix(digits.drop_last(), k);
        assert(digits.drop_last().take(k) =~= digits.take(k));
        lemma_digits_value_of_prefix(digits.drop_last(), digits.len() - 1);
        assert(digits.drop_last().take(digits.len() - 1) =~= digits.drop_last());
    }
}

/// The number `s` writes in decimal, as `str::parse::<u64>` reads it
/// (`parsed_u64`), computed digit by digit.
fn parse_u64(s: &str) -> (r: Option<u64>)
    ensures
        r == parsed_u64(s@),
{
    let cs = chars_of(s);
    let n = cs.len();
    let start: usize = if n > 0 && cs[0] == '+' {
        1
    } else {
        0
    };
    let ghost digits = without_plus_sign(s@);
    assert(digits =~= cs@.subrange(start as int, n as int));
    if start == n {
        return None;
    }
    let mut value: u64 = 0;
    let mut overflowed = false;
    let mut i = start;
    while i < n
        invariant
            start <= i <= n,
            n == cs.len(),
            cs@ == s@,
            digits == cs@.subrange(start as int, n as int),
            digits == without_plus_sign(s@),
            digits.len() > 0,
            forall|k: int| start <= k < i ==> is_decimal_digit(#[trigger] cs@[k]),
            !overflowed ==> value == digits_value(digits.take(i - start)),
            overflowed ==> digits_value(digits.take(i - start)) > u64::MAX,
        decreases n - i,
    {
        let code = cs[i] as u32;
        assert(digits[i - start] == cs@[i as int]);
        if code < 48 || code > 57 {
            assert(!is_decimal_digit(digits[i - start]));
            assert(!all_decimal_digits(digits));
            return None;
        }
        let d = (code - 48) as u64;
        let ghost before = digits.take(i - start);
        assert(digits.take(i - start + 1).drop_last() =~= before);
        proof {
            assert forall|k: int| 0 <= k < i - start + 1 implies is_decimal_digit(
                #[trigger] digits.take(i - start + 1)[k],
            ) by {
                assert(digits.take(i - start + 1)[k] == cs@[start + k]);
            }
            lemma_digits_value_of_prefix(digits.take(i - start + 1), i - start);
            assert(digits.take(i - start + 1).take(i - start) =~= before);
        }
        if !overflowed {
            if value > (u64::MAX - d) / 10 {
                overflowed = true;
            } else {
                value = value * 10 + d;
            }
        }
        i = i + 1;
    }
    assert(digits.take(n - start) =~= digits);
    assert(all_decimal_digits(digits)) by {
        assert forall|k: int| 0 <= k < digits.len() implies is_decimal_digit(#[trigger] digits[k]) by {
            assert(digits[k] == cs@[start + k]);
        }
    }
    if overflowed {
        None
    } else {
        Some(value)
    }
}

/// Whether the characters `a` spell the text `b`.
fn chars_spell(a: &Vec<char>, b: &str) -> (r: bool)
    ensures
        r == (a@ == b@),
{
    let bs = chars_of(b);
    if a.len() != bs.len() {
        return false;
    }
    let mut i: usize = 0;
    while i < a.len()
        invariant
            i <= a.len(),
            a.len() == bs.len(),
            bs@ == b@,
            forall|k: int| 0 <= k < i ==> a@[k] == bs@[k],
        decreases a.len() - i,
    {
        if a[i] != bs[i] {
            return false;
        }
        i = i + 1;
    }
    assert(a@ =~= bs@);
    true
}

/// The lead time, in milliseconds, that a parsed value gives: the value if
/// it parsed and is positive, the default otherwise.
pub open spec fn lead_time_ms_spec(parsed: Option<u64>) -> u64 {
    match parsed {
        Some(ms) if ms > 0 => ms,
        _ => DEFAULT_SCHEDULE_LEAD_TIME_MS,
    }
}

/// The spellings that switch TLS on, after trimming.
pub open spec fn is_truthy(value: Seq<char>) -> bool {
    value == "1"@ || value == "true"@ || value == "TRUE"@ || value == "yes"@
}

pub open spec fn tls_enabled_spec(raw: Option<Seq<char>>) -> bool {
    match raw {
        Some(value) => is_truthy(trimmed(value)),
        None => false,
    }
}

/// The lead time, in milliseconds, for a parsed setting.
pub fn lead_time_ms_from(parsed: Option<u64>) -> (r: u64)
    ensures
        r == lead_time_ms_spec(parsed),
        r > 0,
{
    match parsed {
        Some(ms) if ms > 0 => ms,
        _ => DEFAULT_SCHEDULE_LEAD_TIME_MS,
    }
}

/// The lead time, in milliseconds, for the raw `SCHEDULE_LEAD_TIME_MS`
/// value (`None` when it is not set).
pub fn schedule_lead_time_ms(raw: Option<&str>) -> (r: u64)
    ensures
        r == lead_time_ms_spec(
            match raw {
                Some(s) => parsed_u64(s@),
                None => None,
            },
        ),
        r > 0,
{
    let parsed = match raw {
        Some(s) => parse_u64(s),
        None => None,
    };
    lead_time_ms_from(parsed)
}

/// Whether the raw `TLS_ENABLED` value switches TLS on: one of `1`, `true`,
/// `TRUE` or `yes`, ignoring surrounding whitespace.
pub fn tls_enabled_from(raw: Option<&str>) -> (r: bool)
    ensures
        r == tls_enabled_spec(
            match raw {
                Some(s) => Some(s@),
                None => None,
            },
        ),
{
    match raw {
        None => false,
        Some(s) => {
            let value = trimmed_chars(s);
            chars_spell(&value, "1") || chars_spell(&value, "true") || chars_spell(&value, "TRUE")
                || chars_spell(&value, "yes")
        },
    }
}

impl Clone for Config {
    fn clone(&self) -> (c: Self)
        ensures
            c == *self,
    {
        Config {
            bind_address: self.bind_address.clone(),
            schedule_lead_time: self.schedule_lead_time,
            tls_enabled: self.tls_enabled,
            tls_cert_dir: self.tls_cert_dir.clone(),
        }
    }
}

impl Config {
    /// The settings for the raw values of `BIND_ADDRESS`,
    /// `SCHEDULE_LEAD_TIME_MS`, `TLS_ENABLED` and `TLS_CERT_DIR`, each
    /// `None` when it is not set. Missing or unusable values fall back to
    /// their defaults.
    pub fn from_values(
        bind_address: Option<String>,
        schedule_lead_time_ms: Option<String>,
        tls_enabled: Option<String>,
        tls_cert_dir: Option<String>,
    ) -> (c: Config)
        ensures
            c.bind_address@ == match bind_address {
                Some(s) => s@,
                None => DEFAULT_BIND_ADDRESS@,
            },
            c.schedule_lead_time == millis_duration(
                lead_time_ms_spec(
                    match schedule_lead_time_ms {
                        Some(s) => parsed_u64(s@),
                        None => None,
                    },
                ),
            ),
            duration_micros(c.schedule_lead_time) == 1000 * lead_time_ms_spec(
                match schedule_lead_time_ms {
                    Some(s) => parsed_u64(s@),
                    None => None,
                },
            ),
            c.tls_enabled == tls_enabled_spec(
                match tls_enabled {
                    Some(s) => Some(s@),
                    None => None,
                },
            ),
            c.tls_cert_dir@ == match tls_cert_dir {
                Some(s) => s@,
                None => DEFAULT_TLS_CERT_DIR@,
            },
    {
        let bind_address = match bind_address {
            Some(s) => s,
            None => DEFAULT_BIND_ADDRESS.to_owned(),
        };
        let lead_time_ms = match &schedule_lead_time_ms {
            Some(s) => self::schedule_lead_time_ms(Some(s.as_str())),
            None => self::schedule_lead_time_ms(None),
        };
        let tls = match &tls_enabled {
            Some(s) => tls_enabled_from(Some(s.as_str())),
            None => tls_enabled_from(None),
        };
        let tls_cert_dir = match tls_cert_dir {
            Some(s) => s,
            None => DEFAULT_TLS_CERT_DIR.to_owned(),
        };
        Config {
            bind_address,
            schedule_lead_time: duration_from_millis(lead_time_ms),
            tls_enabled: tls,
            tls_cert_dir,
        }
    }
}

} // verus!
