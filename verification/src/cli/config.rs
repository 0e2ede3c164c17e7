//! The configuration helper subcommands: obtaining a session token from a
//! login, with the input validation and response handling that drive the
//! interactive flow.  The prompts and the HTTP login calls happen outside
//! the crate; every decision between them is verified here.

use vstd::prelude::*;
use vstd::string::{StrSliceExecFns, StringExecFns};

use crate::text::{replace_all, spec_all_digits, spec_is_digit, spec_replace};

verus! {

/// The configuration subcommands.
#[derive(Debug)]
pub enum CommandSubcommands {
    /// Generate an example configuration file and print it.
    Generate,
    /// Revolt commands for obtaining some configuration options.
    Revolt(RevoltSubcommands),
}

/// The Revolt helper subcommands.
#[derive(Debug)]
pub enum RevoltSubcommands {
    /// Log in to Revolt to obtain a new session token.
    GetSessionToken { revolt_api_url: String },
}

/// A character the e-mail pattern accepts: anything but `@` and whitespace.
pub open spec fn spec_email_char(c: char) -> bool {
    c != '@' && c != ' ' && c != '\t' && c != '\r' && c != '\n'
}

/// An e-mail shape with its `@` at `p` and its dot at `q`: at least one
/// accepted character right before the `@`, a non-empty run of accepted
/// characters between the `@` and the dot, and an accepted character right
/// after the dot.
pub open spec fn spec_email_at(s: Seq<char>, p: int, q: int) -> bool {
    &&& 1 <= p
    &&& p + 1 < q
    &&& q + 1 < s.len()
    &&& s[p] == '@'
    &&& s[q] == '.'
    &&& spec_email_char(s[p - 1])
    &&& spec_email_char(s[q + 1])
    &&& forall|i: int| p < i < q ==> spec_email_char(#[trigger] s[i])
}

/// Whether the string contains an e-mail somewhere: a local part, an `@`,
/// a domain, a dot and a final part.
pub open spec fn spec_contains_email(s: Seq<char>) -> bool {
    exists|p: int, q: int| spec_email_at(s, p, q)
}

/// Whether the e-mail pattern accepts this character.
fn is_email_char(c: char) -> (r: bool)
    ensures
        r == spec_email_char(c),
{
    c != '@' && c != ' ' && c != '\t' && c != '\r' && c != '\n'
}

/// Scan for a dot that completes an e-mail whose `@` stands at `p`.
fn find_email_dot(s: &str, n: usize, p: usize) -> (r: bool)
    requires
        n == s@.len(),
        1 <= p < n,
        s@[p as int] == '@',
        spec_email_char(s@[p as int - 1]),
    ensures
        r == exists|q: int| spec_email_at(s@, p as int, q),
{
    let mut j: usize = p + 1;
    loop
        invariant
            n == s@.len(),
            1 <= p < n,
            p + 1 <= j <= n,
            s@[p as int] == '@',
            spec_email_char(s@[p as int - 1]),
            forall|i: int| p < i < j ==> spec_email_char(#[trigger] s@[i]),
            forall|q: int| q < j ==> !spec_email_at(s@, p as int, q),
        decreases n - j,
    {
        if j >= n {
            proof {
                assert forall|q: int| !spec_email_at(s@, p as int, q) by {
                    if q >= j {
                        assert(!(q + 1 < s@.len()));
                    }
                }
            }
            return false;
        }
        let c = s.get_char(j);
        if !is_email_char(c) {
            proof {
                assert(spec_email_char('.'));
                assert forall|q: int| !spec_email_at(s@, p as int, q) by {
                    if q == j {
                        assert(s@[q] != '.');
                    } else if q > j {
                        assert(!spec_email_char(s@[j as int]));
                    }
                }
            }
            return false;
        }
        if c == '.' && j >= p + 2 && j + 1 < n && is_email_char(s.get_char(j + 1)) {
            proof {
                assert(spec_email_at(s@, p as int, j as int));
            }
            return true;
        }
        proof {
            assert(!spec_email_at(s@, p as int, j as int));
        }
        j = j + 1;
    }
}

/// Whether the text holds an e-mail address: some local part, an `@`, a
/// domain with a dot, and something after the dot, none of it whitespace
/// or a second `@` inside one part.
pub fn is_valid_email(s: &str) -> (r: bool)
    ensures
        r == spec_contains_email(s@),
{
    let n = s.unicode_len();
    let mut p: usize = 1;
    while p < n
        invariant
            n == s@.len(),
            1 <= p,
            forall|pp: int, q: int| pp < p ==> !spec_email_at(s@, pp, q),
        decreases n - p,
    {
        let at_sign = s.get_char(p) == '@';
        if at_sign && is_email_char(s.get_char(p - 1)) {
            if find_email_dot(s, n, p) {
                proof {
                    let q = choose|q: int| spec_email_at(s@, p as int, q);
                    assert(spec_email_at(s@, p as int, q));
                }
                return true;
            }
        }
        proof {
            assert forall|q: int| !spec_email_at(s@, p as int, q) by {}
        }
        p = p + 1;
    }
    proof {
        assert forall|pp: int, q: int| !spec_email_at(s@, pp, q) by {
            if pp >= p {
                assert(!(q + 1 < s@.len() && pp + 1 < q));
            }
        }
    }
    false
}

/// Whether the text is exactly a six-digit second-factor code.
pub open spec fn spec_is_totp_code(s: Seq<char>) -> bool {
    s.len() == 6 && spec_all_digits(s)
}

/// Check for a six-digit second-factor code.
pub fn is_totp_code(s: &str) -> (r: bool)
    ensures
        r == spec_is_totp_code(s@),
{
    let n = s.unicode_len();
    if n != 6 {
        return false;
    }
    let mut i: usize = 0;
    while i < 6
        invariant
            s@.len() == 6,
            i <= 6,
            forall|k: int| 0 <= k < i ==> spec_is_digit(#[trigger] s@[k]),
        decreases 6 - i,
    {
        let cv = s.get_char(i) as u32;
        if cv < '0' as u32 || cv > '9' as u32 {
            return false;
        }
        i = i + 1;
    }
    true
}

/// Whether the character is a lower-case letter or a digit.
pub open spec fn spec_is_lower_alnum(c: char) -> bool {
    ('a' as u32 <= c as u32 && c as u32 <= 'z' as u32) || ('0' as u32 <= c as u32 && c as u32
        <= '9' as u32)
}

/// Whether the text starts with a recovery code: five lower-case
/// alphanumerics, a dash, five lower-case alphanumerics.
pub open spec fn spec_starts_with_recovery(s: Seq<char>) -> bool {
    &&& s.len() >= 11
    &&& s[5] == '-'
    &&& forall|i: int| 0 <= i < 11 && i != 5 ==> spec_is_lower_alnum(#[trigger] s[i])
}

/// Whether the text ends with six digits.
pub open spec fn spec_ends_with_totp(s: Seq<char>) -> bool {
    s.len() >= 6 && forall|i: int|
        s.len() - 6 <= i < s.len() ==> spec_is_digit(#[trigger] s[i])
}

/// What the second-factor prompt accepts: a recovery-code shape anchored
/// at the start, or a six-digit code anchored at the end.
pub open spec fn spec_is_totp_or_recovery(s: Seq<char>) -> bool {
    spec_starts_with_recovery(s) || spec_ends_with_totp(s)
}

/// Check whether the text starts with a recovery code.
fn starts_with_recovery(s: &str, n: usize) -> (r: bool)
    requires
        n == s@.len(),
    ensures
        r == spec_starts_with_recovery(s@),
{
    if n < 11 {
        return false;
    }
    if s.get_char(5) != '-' {
        return false;
    }
    let mut i: usize = 0;
    while i < 11
        invariant
            n == s@.len(),
            n >= 11,
            i <= 11,
            s@[5] == '-',
            forall|k: int| 0 <= k < i && k != 5 ==> spec_is_lower_alnum(#[trigger] s@[k]),
        decreases 11 - i,
    {
        if i != 5 {
            let cv = s.get_char(i) as u32;
            let lower = 'a' as u32 <= cv && cv <= 'z' as u32;
            let digit = '0' as u32 <= cv && cv <= '9' as u32;
            if !lower && !digit {
                return false;
            }
        }
        i = i + 1;
    }
    true
}

/// Check whether the text ends with six digits.
fn ends_with_totp(s: &str, n: usize) -> (r: bool)
    requires
        n == s@.len(),
    ensures
        r == spec_ends_with_totp(s@),
{
    if n < 6 {
        return false;
    }
    let start = n - 6;
    let mut i: usize = start;
    while i < n
        invariant
            n == s@.len(),
            n >= 6,
            start == n - 6,
            start <= i <= n,
            forall|k: int| start <= k < i ==> spec_is_digit(#[trigger] s@[k]),
        decreases n - i,
    {
        let cv = s.get_char(i) as u32;
        if cv < '0' as u32 || cv > '9' as u32 {
            return false;
        }
        i = i + 1;
    }
    true
}

/// Check a second-factor entry: a recovery-code shape at the start, or a
/// six-digit code at the end.
pub fn is_totp_or_recovery_code(s: &str) -> (r: bool)
    ensures
        r == spec_is_totp_or_recovery(s@),
{
    let n = s.unicode_len();
    if starts_with_recovery(s, n) {
        true
    } else {
        ends_with_totp(s, n)
    }
}

/// A second-factor submission.
#[derive(Debug)]
pub enum MFAData {
    /// A one-time code from an authenticator.
    Totp { totp_code: String },
    /// A recovery code.
    Recovery { recovery_code: String },
}

/// Wrap an entered second-factor code: an exact six-digit code is sent as
/// a one-time code, anything else as a recovery code.
pub fn mfa_data_from_code(code: String) -> (r: MFAData)
    ensures
        spec_is_totp_code(code@) ==> (r matches MFAData::Totp { totp_code } && totp_code@
            == code@),
        !spec_is_totp_code(code@) ==> (r matches MFAData::Recovery { recovery_code }
            && recovery_code@ == code@),
{
    if is_totp_code(code.as_str()) {
        MFAData::Totp { totp_code: code }
    } else {
        MFAData::Recovery { recovery_code: code }
    }
}

/// The decoded response of a login call, as far as the flow reads it.
#[derive(Debug)]
pub enum LoginResponse {
    /// Logged in; carries the session token.
    Success { token: String },
    /// A second factor is required.
    MFA { ticket: String, allowed_methods: Vec<String> },
    /// The account is disabled.
    Disabled,
}

/// What the login flow does after a login response.
#[derive(Debug)]
pub enum LoginFlowStep {
    /// Show the session-token message; the flow is done.
    ShowToken { message: String },
    /// Ask for a second-factor code and retry with the ticket; recovery
    /// codes are offered only when more than one method is allowed.
    PromptMfa { ticket: String, accept_recovery: bool },
    /// Stop: the account is disabled.
    AccountDisabled,
}

/// The message shown for a freshly generated session token.
pub open spec fn spec_token_message(token: Seq<char>) -> Seq<char> {
    spec_replace(
        "\nSession token successfully generated. Put this to your configuration file where `revolt: session_token` is.\n\nIt should look like this:\nsession_token: \"{SESSION_TOKEN}\"\n\nIf you used the `revolt-api-url` option to login to another instance, you should also put that to your configuration file where `revolt: api_url` is.\n\nImportant note: Session token allows full access to your account! Never share it with anyone and if possible, store it securely.\n"@,
        "{SESSION_TOKEN}"@,
        token,
    )
}

/// Render the message shown for a freshly generated session token.
pub fn session_token_message(token: &str) -> (r: String)
    ensures
        r@ == spec_token_message(token@),
{
    proof {
        reveal_strlit("{SESSION_TOKEN}");
    }
    replace_all(
        "\nSession token successfully generated. Put this to your configuration file where `revolt: session_token` is.\n\nIt should look like this:\nsession_token: \"{SESSION_TOKEN}\"\n\nIf you used the `revolt-api-url` option to login to another instance, you should also put that to your configuration file where `revolt: api_url` is.\n\nImportant note: Session token allows full access to your account! Never share it with anyone and if possible, store it securely.\n",
        "{SESSION_TOKEN}",
        token,
    )
}

/// Decide what follows a login response: success shows the token message,
/// a second-factor demand asks for a code — offering recovery codes only
/// when more than one method is allowed — and a disabled account stops the
/// flow.
pub fn login_response_step(r: LoginResponse) -> (s: LoginFlowStep)
    ensures
        r matches LoginResponse::Success { token } ==> (s matches LoginFlowStep::ShowToken {
            message,
        } && message@ == spec_token_message(token@)),
        r matches LoginResponse::MFA { ticket, allowed_methods } ==> (s
            matches LoginFlowStep::PromptMfa { ticket: t, accept_recovery } && t@ == ticket@
            && accept_recovery == (allowed_methods@.len() > 1)),
        r is Disabled ==> s is AccountDisabled,
{
    match r {
        LoginResponse::Success { token } => LoginFlowStep::ShowToken {
            message: session_token_message(token.as_str()),
        },
        LoginResponse::MFA { ticket, allowed_methods } => LoginFlowStep::PromptMfa {
            ticket,
            accept_recovery: allowed_methods.len() > 1,
        },
        LoginResponse::Disabled => LoginFlowStep::AccountDisabled,
    }
}

/// The login failures the service reports with a structured type tag.
#[derive(Debug, Clone, Copy, PartialEq, Eq, Structural)]
pub enum CommonRevoltLoginErrors {
    UnverifiedAccount,
    InvalidCredentials,
    InvalidToken,
    CompromisedPassword,
    ShortPassword,
    Blacklisted,
    LockedOut,
}

/// The login failure a type tag denotes, if it is a known one.
pub open spec fn spec_login_error_of_type(s: Seq<char>) -> Option<CommonRevoltLoginErrors> {
    if s == "UnverifiedAccount"@ {
        Some(CommonRevoltLoginErrors::UnverifiedAccount)
    } else if s == "InvalidCredentials"@ {
        Some(CommonRevoltLoginErrors::InvalidCredentials)
    } else if s == "InvalidToken"@ {
        Some(CommonRevoltLoginErrors::InvalidToken)
    } else if s == "CompromisedPassword"@ {
        Some(CommonRevoltLoginErrors::CompromisedPassword)
    } else if s == "ShortPassword"@ {
        Some(CommonRevoltLoginErrors::ShortPassword)
    } else if s == "Blacklisted"@ {
        Some(CommonRevoltLoginErrors::Blacklisted)
    } else if s == "LockedOut"@ {
        Some(CommonRevoltLoginErrors::LockedOut)
    } else {
        None
    }
}

/// Recognise the type tag of a reported login failure.
pub fn login_error_of_type(s: &str) -> (r: Option<CommonRevoltLoginErrors>)
    ensures
        r == spec_login_error_of_type(s@),
{
    let tag = s.to_owned();
    if tag == String::from_str("UnverifiedAccount") {
        Some(CommonRevoltLoginErrors::UnverifiedAccount)
    } else if tag == String::from_str("InvalidCredentials") {
        Some(CommonRevoltLoginErrors::InvalidCredentials)
    } else if tag == String::from_str("InvalidToken") {
        Some(CommonRevoltLoginErrors::InvalidToken)
    } else if tag == String::from_str("CompromisedPassword") {
        Some(CommonRevoltLoginErrors::CompromisedPassword)
    } else if tag == String::from_str("ShortPassword") {
        Some(CommonRevoltLoginErrors::ShortPassword)
    } else if tag == String::from_str("Blacklisted") {
        Some(CommonRevoltLoginErrors::Blacklisted)
    } else if tag == String::from_str("LockedOut") {
        Some(CommonRevoltLoginErrors::LockedOut)
    } else {
        None
    }
}

impl CommonRevoltLoginErrors {
    /// The operator-facing description of the failure.
    pub fn message(&self) -> (r: String)
        ensures
            *self is UnverifiedAccount ==> r@
                == "The account you are trying to log in to is unverified."@,
            *self is InvalidCredentials ==> r@ == "Invalid login credentials provided."@,
            *self is InvalidToken ==> r@ == "Incorrect 2FA code provided."@,
            *self is CompromisedPassword ==> r@
                == "The entered password is compromised. Please ensure you have entered the correct password."@,
            *self is ShortPassword ==> r@
                == "The entered password is too short. Please ensure you have entered the correct password."@,
            *self is Blacklisted ==> r@
                == "The entered email is blacklisted. Please ensure you have entered the correct email."@,
            *self is LockedOut ==> r@
                == "This account is locked out. Please try again some time later."@,
    {
        match self {
            CommonRevoltLoginErrors::UnverifiedAccount => String::from_str(
                "The account you are trying to log in to is unverified.",
            ),
            CommonRevoltLoginErrors::InvalidCredentials => String::from_str(
                "Invalid login credentials provided.",
            ),
            CommonRevoltLoginErrors::InvalidToken => String::from_str(
                "Incorrect 2FA code provided.",
            ),
            CommonRevoltLoginErrors::CompromisedPassword => String::from_str(
                "The entered password is compromised. Please ensure you have entered the correct password.",
            ),
            CommonRevoltLoginErrors::ShortPassword => String::from_str(
                "The entered password is too short. Please ensure you have entered the correct password.",
            ),
            CommonRevoltLoginErrors::Blacklisted => String::from_str(
                "The entered email is blacklisted. Please ensure you have entered the correct email.",
            ),
            CommonRevoltLoginErrors::LockedOut => String::from_str(
                "This account is locked out. Please try again some time later.",
            ),
        }
    }
}

} // verus!
