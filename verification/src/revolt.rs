//! The Revolt presence-service boundary: the API error taxonomy, the
//! classification of HTTP responses, and the small decisions around status
//! reads and writes.  The HTTP calls themselves happen outside the crate
//! and hand their observations (status code, headers, decoded body) to the
//! functions here.

use vstd::prelude::*;

use crate::text::{parse_u64_decimal, spec_all_digits, spec_digits_value, str_opt_view};

verus! {

/// Why a Revolt API call failed.
#[derive(Debug, Clone, Copy, PartialEq, Eq, Structural)]
pub enum RevoltAPIError {
    /// Authentication failed; the credentials are invalid.
    AuthenticationFailed,
    /// The rate limit was exceeded; retry after the given milliseconds.
    RateLimitExceeded(u64),
    /// The API returned an unexpected HTTP status.
    Unknown(u16),
    /// The call failed before an HTTP status was obtained (transport error).
    Other,
}

/// The milliseconds a rate-limit header asks us to wait: its decimal value
/// when it is one, zero when the header is missing or malformed.
pub open spec fn spec_retry_after_ms(header: Option<Seq<char>>) -> int {
    match header {
        None => 0,
        Some(s) => if s.len() > 0 && spec_all_digits(s) && spec_digits_value(s) <= u64::MAX {
            spec_digits_value(s)
        } else {
            0
        },
    }
}

/// Read the wait from a rate-limit header value.
pub fn parse_retry_after_ms(header: Option<&str>) -> (r: u64)
    ensures
        r as int == spec_retry_after_ms(
            match header {
                Some(h) => Some(h@),
                None => None,
            },
        ),
{
    match header {
        None => 0,
        Some(h) => match parse_u64_decimal(h) {
            Some(v) => v,
            None => 0,
        },
    }
}

/// How a Revolt HTTP status is classified: success for 200, invalid
/// credentials for 401, a rate limit carrying the header-reported wait for
/// 429, and an unknown error for anything else.
pub open spec fn spec_classify_status(status: u16, retry_after: Option<Seq<char>>) -> Result<
    (),
    RevoltAPIError,
> {
    if status == 200 {
        Ok(())
    } else if status == 401 {
        Err(RevoltAPIError::AuthenticationFailed)
    } else if status == 429 {
        Err(RevoltAPIError::RateLimitExceeded(spec_retry_after_ms(retry_after) as u64))
    } else {
        Err(RevoltAPIError::Unknown(status))
    }
}

/// Classify a Revolt HTTP response from its status code and, for rate
/// limits, the reported wait.
pub fn classify_status(status: u16, retry_after: Option<&str>) -> (r: Result<(), RevoltAPIError>)
    ensures
        r == spec_classify_status(
            status,
            match retry_after {
                Some(h) => Some(h@),
                None => None,
            },
        ),
{
    if status == 200 {
        Ok(())
    } else if status == 401 {
        Err(RevoltAPIError::AuthenticationFailed)
    } else if status == 429 {
        Err(RevoltAPIError::RateLimitExceeded(parse_retry_after_ms(retry_after)))
    } else {
        Err(RevoltAPIError::Unknown(status))
    }
}

/// The part of the remote user profile the relay reads.
#[derive(Debug)]
pub struct UserStatusInfo {
    /// The status text, if one is set.
    pub text: Option<String>,
}

/// The remote user profile, as far as the relay cares.
#[derive(Debug)]
pub struct UserInfo {
    /// The user's status, if one is set.
    pub status: Option<UserStatusInfo>,
}

/// The status text carried by a user profile.
pub open spec fn spec_status_text_of(u: UserInfo) -> Option<Seq<char>> {
    match u.status {
        Some(s) => str_opt_view(s.text),
        None => None,
    }
}

/// Extract the current status text from a fetched user profile.
pub fn status_text_of(u: UserInfo) -> (r: Option<String>)
    ensures
        str_opt_view(r) == spec_status_text_of(u),
{
    match u.status {
        Some(s) => s.text,
        None => None,
    }
}

/// The original status to restore at shutdown, from the one startup status
/// read: the fetched text on success, and no status when the read failed —
/// a failed capture must not block shutdown later.
pub fn capture_original_status(r: Result<Option<String>, RevoltAPIError>) -> (o: Option<String>)
    ensures
        r matches Ok(s) ==> str_opt_view(o) == str_opt_view(s),
        r is Err ==> o is None,
{
    match r {
        Ok(s) => s,
        Err(_) => None,
    }
}

/// What a status write sends to the remote service: set the status text,
/// or remove the status-text field.
#[derive(Debug)]
pub enum UserStatusEdit {
    /// Set the status text.
    SetText(String),
    /// Remove the status text.
    RemoveText,
}

/// The edit that publishes a desired status: some text sets it, no text
/// removes the field.
pub fn edit_for_status(status: Option<String>) -> (r: UserStatusEdit)
    ensures
        status matches Some(s) ==> (r matches UserStatusEdit::SetText(t) && t@ == s@),
        status is None ==> r is RemoveText,
{
    match status {
        Some(s) => UserStatusEdit::SetText(s),
        None => UserStatusEdit::RemoveText,
    }
}

} // verus!
