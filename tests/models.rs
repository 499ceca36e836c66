use ghview::auth::{
    get_stored_token, get_token, login_outcome, poll_outcome, status_from_check, AuthError,
    PollOutcome,
};
use ghview::credential::credentials_path;
use ghview::github::repo_full_name;
use ghview::models::{
    ApiStatus, CheckStatus, check_state_from_lowered, parse_check_state, parse_state, state_from_lowered,
    unknown_check_status, CheckState, PullRequestState,
};
use ghview::text::{int_to_text, parse_int};

#[test]
fn test_get_credentials_path() {
    let path = credentials_path("/home/someone");
    assert!(path.ends_with(".config/ghview/credentials.json"));
    assert_eq!(path, "/home/someone/.config/ghview/credentials.json");
}

#[test]
fn states_are_read_in_any_case() {
    assert_eq!(parse_state("open"), PullRequestState::Open);
    assert_eq!(parse_state("CLOSED"), PullRequestState::Closed);
    assert_eq!(parse_state("merged"), PullRequestState::Open);
    assert_eq!(state_from_lowered("closed"), PullRequestState::Closed);
    assert_eq!(state_from_lowered("Closed"), PullRequestState::Open);
}

#[test]
fn check_states_are_read_in_any_case() {
    assert_eq!(parse_check_state("SUCCESS"), CheckState::Success);
    assert_eq!(parse_check_state("failure"), CheckState::Failure);
    assert_eq!(parse_check_state("Error"), CheckState::Error);
    assert_eq!(parse_check_state("pending"), CheckState::Pending);
    assert_eq!(parse_check_state("neutral"), CheckState::Pending);
    assert_eq!(check_state_from_lowered("ERROR"), CheckState::Pending);
}

#[test]
fn unreadable_check_status_is_pending() {
    let s = unknown_check_status();
    assert_eq!(s.state, CheckState::Pending);
    assert_eq!(s.total_count, 0);
    assert!(s.statuses.is_empty());
}

#[test]
fn repository_name_comes_from_api_url() {
    assert_eq!(repo_full_name("https://api.github.com/repos/octo/hello"), "octo/hello");
    assert_eq!(repo_full_name("https://example.com/x"), "https://example.com/x");
    assert_eq!(repo_full_name("https://api.github.com/repos/"), "");
}

#[test]
fn pending_authorization_keeps_polling() {
    let r = poll_outcome(None, Some("authorization_pending".to_string()), None);
    assert!(matches!(r, PollOutcome::Pending));
}

#[test]
fn oauth_error_uses_description_or_code() {
    match poll_outcome(None, Some("expired_token".to_string()), Some("The code expired".to_string())) {
        PollOutcome::Failed(AuthError::OAuth(m)) => assert_eq!(m, "The code expired"),
        _ => panic!("expected a failure"),
    }
    match poll_outcome(None, Some("access_denied".to_string()), None) {
        PollOutcome::Failed(e) => assert_eq!(e.message(), "OAuth error: access_denied"),
        _ => panic!("expected a failure"),
    }
}

#[test]
fn issued_token_is_kept() {
    match poll_outcome(Some("gho_abc".to_string()), None, None) {
        PollOutcome::Issued(t) => assert_eq!(t, "gho_abc"),
        _ => panic!("expected a token"),
    }
    match poll_outcome(None, None, None) {
        PollOutcome::Failed(e) => assert_eq!(e.message(), "OAuth error: Failed to obtain access token"),
        _ => panic!("expected a failure"),
    }
}

#[test]
fn login_and_check_outcomes() {
    let s = login_outcome(Some("octocat".to_string())).ok().unwrap();
    assert!(s.authenticated);
    assert_eq!(s.username, Some("octocat".to_string()));
    assert!(login_outcome(None).is_err());
    let out = status_from_check(None);
    assert!(!out.authenticated);
    assert!(out.username.is_none());
}

#[test]
fn error_messages() {
    assert_eq!(AuthError::NotAuthenticated.message(), "Not authenticated");
    assert_eq!(AuthError::Keyring("locked".to_string()).message(), "Keyring error: locked");
}

#[test]
fn token_lookup_without_saved_token_is_not_authenticated() {
    assert!(matches!(get_stored_token(), Err(AuthError::NotAuthenticated)));
    assert!(matches!(get_token(), Err(AuthError::NotAuthenticated)));
}

#[test]
fn integers_are_written_and_read_back() {
    assert_eq!(int_to_text(-32700), "-32700");
    assert_eq!(int_to_text(0), "0");
    assert_eq!(int_to_text(i64::MIN), "-9223372036854775808");
    assert_eq!(parse_int("-32700"), Some(-32700));
    assert_eq!(parse_int("9223372036854775807"), Some(i64::MAX));
    assert_eq!(parse_int("9223372036854775808"), None);
    assert_eq!(parse_int("-9223372036854775808"), Some(i64::MIN));
    assert_eq!(parse_int("1.5"), None);
    assert_eq!(parse_int(""), None);
    assert_eq!(parse_int("-"), None);
    assert_eq!(parse_int("99999999999999999999999"), None);
}

#[test]
fn repository_is_derived_from_its_api_url() {
    let r = ghview::github::repository_from_url("https://api.github.com/repos/octo/hello");
    assert_eq!(r.id, 0);
    assert_eq!(r.name, "hello");
    assert_eq!(r.full_name, "octo/hello");
    assert_eq!(r.html_url, "https://github.com/octo/hello");
    assert_eq!(r.owner.login, "octo");
    assert_eq!(r.owner.avatar_url, "");
    assert_eq!(r.owner.html_url, "https://github.com/octo");
}

#[test]
fn repository_from_bare_name() {
    let r = ghview::github::repository_from_url("hello");
    assert_eq!(r.name, "hello");
    assert_eq!(r.owner.login, "hello");
    assert_eq!(r.full_name, "hello/hello");
}

#[test]
fn every_occurrence_is_replaced() {
    assert_eq!(ghview::github::replace_text("a-b-c", "-", "+/"), "a+/b+/c");
    assert_eq!(ghview::github::replace_text("aaa", "aa", "b"), "ba");
    assert_eq!(ghview::github::owner_of("x/y/z"), "y");
}

#[test]
fn combined_status_is_read_check_by_check() {
    let statuses = vec![
        ApiStatus {
            state: "SUCCESS".to_string(),
            context: "ci/build".to_string(),
            description: Some("ok".to_string()),
            target_url: None,
        },
        ApiStatus {
            state: "weird".to_string(),
            context: "ci/lint".to_string(),
            description: None,
            target_url: Some("https://ci.example/1".to_string()),
        },
    ];
    let s = CheckStatus::from_api("Failure", 2, statuses);
    assert_eq!(s.state, CheckState::Failure);
    assert_eq!(s.total_count, 2);
    assert_eq!(s.statuses.len(), 2);
    assert_eq!(s.statuses[0].state, CheckState::Success);
    assert_eq!(s.statuses[0].context, "ci/build");
    assert_eq!(s.statuses[1].state, CheckState::Pending);
    assert_eq!(s.statuses[1].target_url, Some("https://ci.example/1".to_string()));
}

#[test]
fn keyring_outcomes_map_to_auth_errors() {
    match ghview::auth::token_from_keyring(Err("locked".to_string())) {
        Err(AuthError::Keyring(m)) => assert_eq!(m, "locked"),
        _ => panic!("expected a keyring error"),
    }
    assert_eq!(
        ghview::auth::token_from_keyring(Ok(Some("gho_1".to_string()))).ok(),
        Some("gho_1".to_string())
    );
    assert!(matches!(
        ghview::auth::token_from_keyring(Ok(None)),
        Err(AuthError::NotAuthenticated)
    ));
    assert!(ghview::auth::keyring_write_outcome(Ok(())).is_ok());
    match ghview::auth::keyring_write_outcome(Err("denied".to_string())) {
        Err(AuthError::Keyring(m)) => assert_eq!(m, "denied"),
        _ => panic!("expected a keyring error"),
    }
}
