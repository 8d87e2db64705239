use vstd::prelude::*;

verus! {

/// The status with which the server asks the client to slow down.
pub const TOO_MANY_REQUESTS: u16 = 429;

/// The wait, in seconds, when a rate-limited response names none that can be
/// read.
pub const DEFAULT_RETRY_AFTER_SECS: u64 = 2;

/// The value of a string of decimal digits.
pub open spec fn digits_value(s: Seq<char>) -> int
    decreases s.len(),
{
    if s.len() == 0 {
        0
    } else {
        digits_value(s.drop_last()) * 10 + (s.last() as int - '0' as int)
    }
}

pub open spec fn all_digits(s: Seq<char>) -> bool {
    forall|i: int| 0 <= i < s.len() ==> '0' <= #[trigger] s[i] && s[i] <= '9'
}

/// An unsigned decimal number: an optional `+`, then one digit or more,
/// with a value that fits in 64 bits.
pub open spec fn spec_parse_u64(s: Seq<char>) -> Option<u64> {
    let d = if s.len() > 0 && s[0] == '+' { s.drop_first() } else { s };
    if d.len() > 0 && all_digits(d) && digits_value(d) <= u64::MAX {
        Some(digits_value(d) as u64)
    } else {
        None
    }
}

/// Relies on `str::parse::<u64>`: an optional `+` followed by decimal digits,
/// nothing else, within range.
#[verifier::external_body]
fn parse_u64(s: &str) -> (r: Option<u64>)
    ensures
        r == spec_parse_u64(s@),
{
    s.parse::<u64>().ok()
}

/// The wait that a rate-limited response asks for: the `Retry-After` value
/// when it reads as a number of seconds, the default otherwise.
pub open spec fn spec_retry_after(header: Option<Seq<char>>) -> u64 {
    match header {
        Some(h) => match spec_parse_u64(h) {
            Some(secs) => secs,
            None => DEFAULT_RETRY_AFTER_SECS,
        },
        None => DEFAULT_RETRY_AFTER_SECS,
    }
}

/// What to do with a response.
#[derive(PartialEq, Eq, Structural, Clone, Copy, Debug)]
pub enum RetryAction {
    /// Sleep for this many seconds, then send the same request again.
    Wait { secs: u64 },
    /// A success status: hand the response to the caller.
    Accept,
    /// Any other status: surface it as an error, without a retry.
    Reject { status: u16 },
}

pub open spec fn spec_retry_action(status: u16, retry_after: Option<Seq<char>>) -> RetryAction {
    if status == TOO_MANY_REQUESTS {
        RetryAction::Wait { secs: spec_retry_after(retry_after) }
    } else if 200 <= status <= 299 {
        RetryAction::Accept
    } else {
        RetryAction::Reject { status }
    }
}

/// The seconds to wait before a rate-limited request is sent again.
pub fn retry_after_secs(header: Option<&str>) -> (secs: u64)
    ensures
        secs == spec_retry_after(
            match header {
                Some(h) => Some(h@),
                None => None,
            },
        ),
{
    match header {
        Some(h) => match parse_u64(h) {
            Some(secs) => secs,
            None => DEFAULT_RETRY_AFTER_SECS,
        },
        None => DEFAULT_RETRY_AFTER_SECS,
    }
}

/// The rate-limit policy: a 429 is retried after the wait it names, for as
/// many times as the server answers so; a 2xx is accepted; anything else is
/// surfaced.
pub fn retry_action(status: u16, retry_after: Option<&str>) -> (r: RetryAction)
    ensures
        r == spec_retry_action(
            status,
            match retry_after {
                Some(h) => Some(h@),
                None => None,
            },
        ),
{
    if status == TOO_MANY_REQUESTS {
        RetryAction::Wait { secs: retry_after_secs(retry_after) }
    } else if 200 <= status && status <= 299 {
        RetryAction::Accept
    } else {
        RetryAction::Reject { status }
    }
}

} // verus!
