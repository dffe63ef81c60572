use vstd::prelude::*;

use crate::error::{SerpError, SerpResult};

verus! {

/// Service the client talks to when no other base URL is configured.
pub const DEFAULT_BASE_URL: &'static str = "https://serpapi.com";

/// Request timeout of a default client, in seconds.
pub const DEFAULT_TIMEOUT_SECS: u64 = 30;

/// User agent of a default client.
pub const DEFAULT_USER_AGENT: &'static str = "serp-sdk-rust/0.2.0";

/// Name of the environment variable that may hold the API key.
pub const API_KEY_ENV_VAR: &'static str = "SERP_API_KEY";

/// Message of the error returned for a blank API key.
pub const EMPTY_KEY_MESSAGE: &'static str = "API key cannot be empty";

/// Seconds to wait after a 429 answer that names no usable wait.
pub const DEFAULT_RETRY_AFTER_SECS: u64 = 60;

/// HTTP status that signals rate limiting.
pub const TOO_MANY_REQUESTS: u16 = 429;

/// Whether `c` has the Unicode `White_Space` property.
pub open spec fn unicode_white_space(c: char) -> bool {
    ||| '\t' <= c <= '\r'
    ||| c == ' '
    ||| c == '\u{85}'
    ||| c == '\u{A0}'
    ||| c == '\u{1680}'
    ||| '\u{2000}' <= c <= '\u{200A}'
    ||| c == '\u{2028}'
    ||| c == '\u{2029}'
    ||| c == '\u{202F}'
    ||| c == '\u{205F}'
    ||| c == '\u{3000}'
}

/// Relies on char::is_whitespace, which is true exactly of the characters
/// with the Unicode `White_Space` property.
#[verifier::external_body]
fn is_whitespace(c: char) -> (r: bool)
    ensures
        r == unicode_white_space(c),
{
    c.is_whitespace()
}

/// Whether `s` holds nothing but white space, so that trimming empties it.
pub open spec fn blank(s: Seq<char>) -> bool {
    forall|i: int| 0 <= i < s.len() ==> unicode_white_space(#[trigger] s[i])
}

/// Whether `s` is empty once trimmed.
pub fn is_blank(s: &str) -> (r: bool)
    ensures
        r == blank(s@),
{
    let n = s.unicode_len();
    let mut i: usize = 0;
    while i < n
        invariant
            n == s@.len(),
            i <= n,
            forall|j: int| 0 <= j < i ==> unicode_white_space(#[trigger] s@[j]),
        decreases n - i,
    {
        if !is_whitespace(s.get_char(i)) {
            return false;
        }
        i = i + 1;
    }
    true
}

/// The API key a client uses: the one given explicitly, else the one from
/// the environment.
pub open spec fn chosen_key(explicit: Option<String>, from_env: Option<String>) -> Option<String> {
    match explicit {
        Some(k) => Some(k),
        None => from_env,
    }
}

/// The API key a client is built with: the explicit one, else the one read
/// from the environment; an error when there is neither or when the key is
/// blank.
pub fn resolve_api_key(explicit: Option<String>, from_env: Option<String>) -> (r: SerpResult<String>)
    ensures
        chosen_key(explicit, from_env) is None ==> r is Err && r->Err_0 is MissingApiKey,
        chosen_key(explicit, from_env) matches Some(k) ==> {
            &&& blank(k@) ==> (r matches Err(SerpError::InvalidParameter(m)) && m@ == EMPTY_KEY_MESSAGE@)
            &&& !blank(k@) ==> r == Ok::<String, SerpError>(k)
        },
{
    let key = match explicit {
        Some(k) => k,
        None => match from_env {
            Some(k) => k,
            None => {
                return Err(SerpError::MissingApiKey);
            },
        },
    };
    if is_blank(key.as_str()) {
        return Err(SerpError::InvalidParameter(String::from_str(EMPTY_KEY_MESSAGE)));
    }
    Ok(key)
}

/// The base URL a client uses: the configured one, else the default.
pub fn base_url_or_default(configured: Option<String>) -> (r: String)
    ensures
        r@ == match configured {
            Some(u) => u@,
            None => DEFAULT_BASE_URL@,
        },
{
    match configured {
        Some(u) => u,
        None => String::from_str(DEFAULT_BASE_URL),
    }
}

/// How an API key is shown in logs: its first four and last four characters
/// around `***` when it is longer than eight characters, else `***` alone.
pub open spec fn masked(key: Seq<char>) -> Seq<char> {
    if key.len() > 8 {
        key.subrange(0, 4) + "***"@ + key.subrange(key.len() - 4, key.len() as int)
    } else {
        "***"@
    }
}

/// The API key as shown in logs.
pub fn mask_api_key(key: &str) -> (r: String)
    ensures
        r@ == masked(key@),
{
    let n = key.unicode_len();
    if n > 8 {
        let mut s = String::from_str(key.substring_char(0, 4));
        s.append("***");
        s.append(key.substring_char(n - 4, n));
        s
    } else {
        String::from_str("***")
    }
}

/// Whether a client holds an API key.
pub fn has_api_key(key: &str) -> (r: bool)
    ensures
        r == (key@.len() > 0),
{
    key.unicode_len() > 0
}

/// The address of a search: the base URL, `/search?` and the query string.
pub fn search_url(base_url: &str, query_string: &str) -> (r: String)
    ensures
        r@ == base_url@ + "/search?"@ + query_string@,
{
    let mut s = String::from_str(base_url);
    s.append("/search?");
    s.append(query_string);
    s
}

/// Whether `c` is an ASCII decimal digit.
pub open spec fn is_digit(c: char) -> bool {
    '0' <= c <= '9'
}

/// The number that the decimal digits `s` stand for.
pub open spec fn digits_value(s: Seq<char>) -> int
    decreases s.len(),
{
    if s.len() == 0 {
        0
    } else {
        digits_value(s.drop_last()) * 10 + (s.last() as int - '0' as int)
    }
}

/// The digits of an unsigned number, after an optional leading `+`.
pub open spec fn unsigned_digits(s: Seq<char>) -> Seq<char> {
    if s.len() > 0 && s[0] == '+' {
        s.drop_first()
    } else {
        s
    }
}

/// The `u64` that `s` denotes as `str::parse` reads it: an optional `+`,
/// then one or more decimal digits, with a value that fits.
pub open spec fn parsed_u64(s: Seq<char>) -> Option<u64> {
    let d = unsigned_digits(s);
    if d.len() > 0 && (forall|i: int| 0 <= i < d.len() ==> is_digit(#[trigger] d[i]))
        && digits_value(d) <= u64::MAX {
        Some(digits_value(d) as u64)
    } else {
        None
    }
}

/// Reads an unsigned decimal number such as a `Retry-After` value.
pub fn parse_u64(s: &str) -> (r: Option<u64>)
    ensures
        r == parsed_u64(s@),
{
    let n = s.unicode_len();
    let ghost d = unsigned_digits(s@);
    let start: usize = if n > 0 && s.get_char(0) == '+' { 1 } else { 0 };
    if start >= n {
        return None;
    }
    assert(d == s@.subrange(start as int, n as int));
    let mut value: u64 = 0;
    let mut overflow = false;
    let mut i: usize = start;
    while i < n
        invariant
            n == s@.len(),
            start <= i <= n,
            d == s@.subrange(start as int, n as int),
            d == unsigned_digits(s@),
            forall|j: int| start <= j < i ==> is_digit(#[trigger] s@[j]),
            overflow <==> digits_value(s@.subrange(start as int, i as int)) > u64::MAX,
            !overflow ==> value == digits_value(s@.subrange(start as int, i as int)),
        decreases n - i,
    {
        let c = s.get_char(i);
        if c < '0' || c > '9' {
            assert(d[i - start] == c);
            assert(!is_digit(d[i - start]));
            return None;
        }
        let ghost prefix = s@.subrange(start as int, i as int);
        let ghost next = s@.subrange(start as int, i + 1);
        assert(next.drop_last() == prefix);
        assert(next.last() == c);
        let digit: u64 = (c as u32 - '0' as u32) as u64;
        if !overflow {
            if value > (u64::MAX - digit) / 10 {
                overflow = true;
            } else {
                value = value * 10 + digit;
            }
        }
        i = i + 1;
    }
    assert(s@.subrange(start as int, n as int) == d);
    if overflow {
        None
    } else {
        Some(value)
    }
}

/// What the status line of an answer says.
#[derive(PartialEq, Eq, Structural, Clone, Copy, Debug)]
pub enum StatusClass {
    /// A 2xx status: the body holds results.
    Success,
    /// A 429 status: wait this many seconds before trying again.
    RateLimited { retry_after: u64 },
    /// Any other status: the body holds the service's message.
    Failure { code: u16 },
}

/// How the client treats an answer with `status` and the given `Retry-After`
/// header text: 429 asks for the wait in the header, or sixty seconds when
/// the header is missing or not a number; 2xx is a success; anything else
/// is a failure carrying its code.
pub open spec fn status_class(status: u16, retry_after: Option<Seq<char>>) -> StatusClass {
    if status == 429 {
        StatusClass::RateLimited {
            retry_after: match retry_after {
                Some(h) => match parsed_u64(h) {
                    Some(v) => v,
                    None => DEFAULT_RETRY_AFTER_SECS,
                },
                None => DEFAULT_RETRY_AFTER_SECS,
            },
        }
    } else if 200 <= status < 300 {
        StatusClass::Success
    } else {
        StatusClass::Failure { code: status }
    }
}

/// Classifies an answer by its status and `Retry-After` header text.
pub fn classify_status(status: u16, retry_after: Option<&str>) -> (r: StatusClass)
    ensures
        r == status_class(
            status,
            match retry_after {
                Some(h) => Some(h@),
                None => None,
            },
        ),
{
    if status == TOO_MANY_REQUESTS {
        let wait = match retry_after {
            Some(h) => match parse_u64(h) {
                Some(v) => v,
                None => DEFAULT_RETRY_AFTER_SECS,
            },
            None => DEFAULT_RETRY_AFTER_SECS,
        };
        StatusClass::RateLimited { retry_after: wait }
    } else if 200 <= status && status < 300 {
        StatusClass::Success
    } else {
        StatusClass::Failure { code: status }
    }
}

/// The error for an answer with a non-success status other than 429.
pub fn failure_error(code: u16, body: String) -> (r: SerpError)
    ensures
        r == (SerpError::ApiError { code, message: body }),
{
    SerpError::ApiError { code, message: body }
}

/// Whether reqwest accepts the text as a header name.
pub uninterp spec fn header_name_ok(s: Seq<char>) -> bool;

/// Whether reqwest accepts the text as a header value.
pub uninterp spec fn header_value_ok(s: Seq<char>) -> bool;

/// Relies on reqwest::header::HeaderName's `FromStr`: whether the text
/// parses as a header name, which depends on the text alone.
#[verifier::external_body]
fn parses_as_header_name(name: &str) -> (r: bool)
    ensures
        r == header_name_ok(name@),
{
    name.parse::<reqwest::header::HeaderName>().is_ok()
}

/// Relies on reqwest::header::HeaderValue::from_str: whether the text
/// parses as a header value, which depends on the text alone.
#[verifier::external_body]
fn parses_as_header_value(value: &str) -> (r: bool)
    ensures
        r == header_value_ok(value@),
{
    reqwest::header::HeaderValue::from_str(value).is_ok()
}

/// Prefix of the error message for a rejected header name.
pub const INVALID_HEADER_NAME: &'static str = "Invalid header name: ";

/// Prefix of the error message for a rejected header value.
pub const INVALID_HEADER_VALUE: &'static str = "Invalid header value: ";

/// The outcome of checking a default header whose name and value were
/// found acceptable or not: the name is reported first, then the value,
/// each in a message that quotes it.
pub fn header_verdict(name: &str, value: &str, name_ok: bool, value_ok: bool) -> (r: SerpResult<()>)
    ensures
        r is Ok <==> name_ok && value_ok,
        !name_ok ==> (r matches Err(SerpError::InvalidParameter(m)) && m@ == INVALID_HEADER_NAME@
            + name@),
        name_ok && !value_ok ==> (r matches Err(SerpError::InvalidParameter(m)) && m@
            == INVALID_HEADER_VALUE@ + value@),
{
    if !name_ok {
        let mut m = String::from_str(INVALID_HEADER_NAME);
        m.append(name);
        return Err(SerpError::InvalidParameter(m));
    }
    if !value_ok {
        let mut m = String::from_str(INVALID_HEADER_VALUE);
        m.append(value);
        return Err(SerpError::InvalidParameter(m));
    }
    Ok(())
}

/// Checks a default header before it is added to the client: an error when
/// reqwest rejects its name or, failing that, its value.
pub fn check_default_header(name: &str, value: &str) -> (r: SerpResult<()>)
    ensures
        r is Ok <==> header_name_ok(name@) && header_value_ok(value@),
        !header_name_ok(name@) ==> (r matches Err(SerpError::InvalidParameter(m)) && m@
            == INVALID_HEADER_NAME@ + name@),
        header_name_ok(name@) && !header_value_ok(value@) ==> (r matches Err(
            SerpError::InvalidParameter(m),
        ) && m@ == INVALID_HEADER_VALUE@ + value@),
{
    let name_ok = parses_as_header_name(name);
    let value_ok = parses_as_header_value(value);
    header_verdict(name, value, name_ok, value_ok)
}

} // verus!
