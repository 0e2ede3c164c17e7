//! Tests for the login flow helpers: input validation, response handling
//! and error classification.

use lure::cli::config::{
    is_totp_code, is_totp_or_recovery_code, is_valid_email, login_error_of_type,
    login_response_step, mfa_data_from_code, session_token_message, CommonRevoltLoginErrors,
    LoginFlowStep, LoginResponse, MFAData,
};

#[test]
fn plain_addresses_are_valid_emails() {
    assert!(is_valid_email("i@love.cat"));
    assert!(is_valid_email("first.last@example.co.uk"));
    assert!(is_valid_email("a@b.c"));
}

#[test]
fn emails_need_all_three_parts() {
    assert!(!is_valid_email(""));
    assert!(!is_valid_email("plain"));
    assert!(!is_valid_email("no-at.example.org"));
    assert!(!is_valid_email("@example.org"));
    assert!(!is_valid_email("user@"));
    assert!(!is_valid_email("user@nodot"));
    assert!(!is_valid_email("user@dot."));
    assert!(!is_valid_email("user@spa ce.org"));
    assert!(!is_valid_email("user@@example.org"));
}

#[test]
fn email_check_scans_the_whole_text() {
    // The pattern is unanchored: an address anywhere in the text counts.
    assert!(is_valid_email("contact me at i@love.cat please"));
    assert!(is_valid_email("x@y@love.cat"));
}

#[test]
fn totp_codes_are_exactly_six_digits() {
    assert!(is_totp_code("123456"));
    assert!(is_totp_code("000000"));
    assert!(!is_totp_code("12345"));
    assert!(!is_totp_code("1234567"));
    assert!(!is_totp_code("12345a"));
    assert!(!is_totp_code(""));
}

#[test]
fn second_factor_accepts_recovery_or_totp() {
    assert!(is_totp_or_recovery_code("abc12-def34"));
    assert!(is_totp_or_recovery_code("123456"));
    assert!(!is_totp_or_recovery_code("short"));
    assert!(!is_totp_or_recovery_code("ABC12-DEF34"));
    assert!(!is_totp_or_recovery_code("abc1-def345"));
}

#[test]
fn second_factor_anchors_split_between_the_alternatives() {
    // The recovery shape is anchored at the start only, the digit code at
    // the end only.
    assert!(is_totp_or_recovery_code("abc12-def34 with a tail"));
    assert!(is_totp_or_recovery_code("a head then 123456"));
    assert!(!is_totp_or_recovery_code("a head then abc12-def34"));
    assert!(!is_totp_or_recovery_code("123456 with a tail"));
}

#[test]
fn six_digit_codes_are_sent_as_totp() {
    match mfa_data_from_code("654321".to_string()) {
        MFAData::Totp { totp_code } => assert_eq!(totp_code, "654321"),
        other => panic!("unexpected data {other:?}"),
    }
}

#[test]
fn other_codes_are_sent_as_recovery() {
    match mfa_data_from_code("abc12-def34".to_string()) {
        MFAData::Recovery { recovery_code } => assert_eq!(recovery_code, "abc12-def34"),
        other => panic!("unexpected data {other:?}"),
    }
}

#[test]
fn successful_login_shows_the_token_message() {
    let step = login_response_step(LoginResponse::Success {
        token: "tok-456".to_string(),
    });
    match step {
        LoginFlowStep::ShowToken { message } => {
            assert!(message.contains("session_token: \"tok-456\""));
            assert_eq!(message, session_token_message("tok-456"));
        }
        other => panic!("unexpected step {other:?}"),
    }
}

#[test]
fn token_message_substitutes_the_placeholder() {
    let message = session_token_message("tok");
    assert!(!message.contains("{SESSION_TOKEN}"));
    assert!(message.contains("session_token: \"tok\""));
}

#[test]
fn mfa_demand_prompts_for_a_code() {
    let step = login_response_step(LoginResponse::MFA {
        ticket: "ticket-1".to_string(),
        allowed_methods: vec!["Totp".to_string(), "Recovery".to_string()],
    });
    match step {
        LoginFlowStep::PromptMfa {
            ticket,
            accept_recovery,
        } => {
            assert_eq!(ticket, "ticket-1");
            assert!(accept_recovery);
        }
        other => panic!("unexpected step {other:?}"),
    }

    let step = login_response_step(LoginResponse::MFA {
        ticket: "ticket-2".to_string(),
        allowed_methods: vec!["Totp".to_string()],
    });
    match step {
        LoginFlowStep::PromptMfa {
            ticket,
            accept_recovery,
        } => {
            assert_eq!(ticket, "ticket-2");
            assert!(!accept_recovery);
        }
        other => panic!("unexpected step {other:?}"),
    }
}

#[test]
fn disabled_account_stops_the_flow() {
    let step = login_response_step(LoginResponse::Disabled);
    assert!(matches!(step, LoginFlowStep::AccountDisabled));
}

#[test]
fn known_login_error_tags_are_recognised() {
    assert_eq!(
        login_error_of_type("UnverifiedAccount"),
        Some(CommonRevoltLoginErrors::UnverifiedAccount)
    );
    assert_eq!(
        login_error_of_type("InvalidCredentials"),
        Some(CommonRevoltLoginErrors::InvalidCredentials)
    );
    assert_eq!(
        login_error_of_type("InvalidToken"),
        Some(CommonRevoltLoginErrors::InvalidToken)
    );
    assert_eq!(
        login_error_of_type("CompromisedPassword"),
        Some(CommonRevoltLoginErrors::CompromisedPassword)
    );
    assert_eq!(
        login_error_of_type("ShortPassword"),
        Some(CommonRevoltLoginErrors::ShortPassword)
    );
    assert_eq!(
        login_error_of_type("Blacklisted"),
        Some(CommonRevoltLoginErrors::Blacklisted)
    );
    assert_eq!(
        login_error_of_type("LockedOut"),
        Some(CommonRevoltLoginErrors::LockedOut)
    );
    assert_eq!(login_error_of_type("SomethingElse"), None);
    assert_eq!(login_error_of_type(""), None);
}

#[test]
fn login_errors_have_their_messages() {
    assert_eq!(
        CommonRevoltLoginErrors::InvalidCredentials.message(),
        "Invalid login credentials provided."
    );
    assert_eq!(
        CommonRevoltLoginErrors::InvalidToken.message(),
        "Incorrect 2FA code provided."
    );
    assert_eq!(
        CommonRevoltLoginErrors::UnverifiedAccount.message(),
        "The account you are trying to log in to is unverified."
    );
    assert_eq!(
        CommonRevoltLoginErrors::LockedOut.message(),
        "This account is locked out. Please try again some time later."
    );
}
