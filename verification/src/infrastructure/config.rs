//! Process configuration from the values of environment variables.
use vstd::prelude::*;
use vstd::string::StrSliceExecFns;

verus! {

/// Port of the HTTP server where none is configured.
pub const DEFAULT_HTTP_PORT: u16 = 8080;

/// Port of the gRPC server where none is configured.
pub const DEFAULT_GRPC_PORT: u16 = 50051;

/// Environment name where none is configured.
pub open spec fn default_app_env() -> Seq<char> {
    "development"@
}

/// Address of the TLE source where none is configured.
pub open spec fn default_tle_service_address() -> Seq<char> {
    "grpc://tle-ingestion-service:50051"@
}

/// Whether `c` is an ASCII decimal digit.
pub open spec fn is_digit(c: char) -> bool {
    48 <= c as u32 <= 57
}

/// Whether `text` consists of decimal digits only.
pub open spec fn all_digits(text: Seq<char>) -> bool {
    forall|i: int| 0 <= i < text.len() ==> is_digit(#[trigger] text[i])
}

/// The number that a sequence of decimal digits denotes.
pub open spec fn digits_value(text: Seq<char>) -> nat
    decreases text.len(),
{
    if text.len() == 0 {
        0
    } else {
        (10 * digits_value(text.drop_last()) + (text.last() as u32 - 48)) as nat
    }
}

/// What follows the optional `+` at the head of `text`.
pub open spec fn unsigned_part(text: Seq<char>) -> Seq<char> {
    if text.len() > 0 && text[0] == '+' {
        text.subrange(1, text.len() as int)
    } else {
        text
    }
}

/// The port that `text` denotes: an optional `+` and then one or more
/// decimal digits whose value fits sixteen bits.
pub open spec fn parse_u16(text: Seq<char>) -> Option<u16> {
    let digits = unsigned_part(text);
    if digits.len() > 0 && all_digits(digits) && digits_value(digits) <= u16::MAX {
        Some(digits_value(digits) as u16)
    } else {
        None
    }
}

/// The value of a configured text, or the default where none is configured.
pub open spec fn text_or(value: Option<String>, default: Seq<char>) -> Seq<char> {
    match value {
        Some(v) => v@,
        None => default,
    }
}

/// The port that a configured text denotes, or the default where none is
/// configured or the text denotes no port.
pub open spec fn port_or(value: Option<String>, default: u16) -> u16 {
    match value {
        Some(v) => match parse_u16(v@) {
            Some(port) => port,
            None => default,
        },
        None => default,
    }
}

/// What the process is configured with.
#[derive(Debug, Clone)]
pub struct AppConfig {
    pub app_env: String,
    pub http_port: u16,
    pub grpc_port: u16,
    pub tle_service_address: String,
}

/// A longer run of digits denotes at least as much as any of its prefixes.
proof fn lemma_digits_value_grows(text: Seq<char>, k: int)
    requires
        all_digits(text),
        0 <= k <= text.len(),
    ensures
        digits_value(text.subrange(0, k)) <= digits_value(text),
    decreases text.len(),
{
    if k == text.len() {
        assert(text.subrange(0, k) =~= text);
    } else {
        let shorter = text.drop_last();
        assert(shorter.subrange(0, k) =~= text.subrange(0, k));
        lemma_digits_value_grows(shorter, k);
    }
}

/// Reads a port number.
pub fn parse_port(text: &str) -> (r: Option<u16>)
    ensures
        r == parse_u16(text@),
{
    let n = text.unicode_len();
    let start: usize = if n > 0 && text.get_char(0) == '+' {
        1
    } else {
        0
    };
    let ghost digits = text@.subrange(start as int, n as int);
    if start == n {
        return None;
    }
    let mut value: u32 = 0;
    let mut i: usize = start;
    while i < n
        invariant
            start <= i <= n,
            n == text@.len(),
            digits == text@.subrange(start as int, n as int),
            digits == unsigned_part(text@),
            all_digits(digits.subrange(0, i - start)),
            value == digits_value(digits.subrange(0, i - start)),
            value <= u16::MAX,
        decreases n - i,
    {
        let c = text.get_char(i);
        let code: u32 = c as u32;
        let ghost seen = digits.subrange(0, i - start);
        let ghost next = digits.subrange(0, i + 1 - start);
        proof {
            assert(next.drop_last() =~= seen);
            assert(digits[i - start] == c);
        }
        if code < 48 || code > 57 {
            return None;
        }
        value = 10 * value + (code - 48);
        proof {
            assert forall|j: int| 0 <= j < next.len() implies is_digit(#[trigger] next[j]) by {
                if j < seen.len() {
                    assert(next[j] == seen[j]);
                }
            }
        }
        if value > 65535 {
            proof {
                if all_digits(digits) {
                    lemma_digits_value_grows(digits, i + 1 - start);
                }
            }
            return None;
        }
        i = i + 1;
    }
    proof {
        assert(digits.subrange(0, n - start) =~= digits);
    }
    Some(value as u16)
}

/// A configured text, or the default.
pub fn env_string(value: Option<String>, default: &str) -> (r: String)
    ensures
        r@ == text_or(value, default@),
{
    match value {
        Some(v) => v,
        None => default.to_owned(),
    }
}

/// A configured port, or the default where the text denotes none.
pub fn env_u16(value: Option<String>, default: u16) -> (r: u16)
    ensures
        r == port_or(value, default),
{
    match value {
        Some(v) => match parse_port(v.as_str()) {
            Some(port) => port,
            None => default,
        },
        None => default,
    }
}

impl AppConfig {
    /// The configuration that the four values amount to. A value that is
    /// not set, or a port that cannot be read, gives way to its default.
    pub fn from_values(
        app_env: Option<String>,
        http_port: Option<String>,
        grpc_port: Option<String>,
        tle_service_address: Option<String>,
    ) -> (r: Self)
        ensures
            r.app_env@ == text_or(app_env, default_app_env()),
            r.http_port == port_or(http_port, DEFAULT_HTTP_PORT),
            r.grpc_port == port_or(grpc_port, DEFAULT_GRPC_PORT),
            r.tle_service_address@ == text_or(tle_service_address, default_tle_service_address()),
    {
        AppConfig {
            app_env: env_string(app_env, "development"),
            http_port: env_u16(http_port, DEFAULT_HTTP_PORT),
            grpc_port: env_u16(grpc_port, DEFAULT_GRPC_PORT),
            tle_service_address: env_string(
                tle_service_address,
                "grpc://tle-ingestion-service:50051",
            ),
        }
    }
}

} // verus!
