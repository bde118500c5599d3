use google_authenticator::GoogleAuthenticator;
use std::time::Duration;
use user_auth::error::{AuthError, HashError, RepoError, StoreError, ValidationError};
use user_auth::session::{MemorySessions, Session, SessionManager};
use user_auth::users::{
    access_granted, canonical_email, stored, Login, NewUser, Signup, User, Users, AUTH_KEY_LEN,
    TIMED_AUTH_KEY_LEN,
};

const SECRET: &str = "I3VFM3JKMNDJCDH5BMBEEQAW6KJ6NOE3";

fn alice() -> User {
    let config = argon2::Config::owasp5();
    User {
        id: 17,
        email: "alice@example.com".to_string(),
        password: argon2::hash_encoded("P@ss1".as_bytes(), b"saltsalt", &config).unwrap(),
        totp_secret: SECRET.to_string(),
    }
}

fn form(password: &str, code: &str) -> Login {
    Login {
        email: "alice@example.com".to_string(),
        password: password.to_string(),
        totp_token: code.to_string(),
    }
}

fn present_code() -> String {
    GoogleAuthenticator::new().get_code(SECRET, 0).unwrap()
}

/// A six-digit code that is right at no time slice near the present.
fn stale_code() -> String {
    let authenticator = GoogleAuthenticator::new();
    let now = std::time::SystemTime::now()
        .duration_since(std::time::UNIX_EPOCH)
        .unwrap()
        .as_secs()
        / 30;
    let near: Vec<String> = (now - 3..=now + 3)
        .map(|slice| authenticator.get_code(SECRET, slice).unwrap())
        .collect();
    ["000000", "000001", "000002", "000003", "000004", "000005", "000006", "000007"]
        .iter()
        .map(|code| code.to_string())
        .find(|code| !near.contains(code))
        .unwrap()
}

#[test]
fn access_is_granted_by_password_and_code() {
    assert!(access_granted(Ok(true), true, false));
    assert!(access_granted(Ok(true), true, true));
}

#[test]
fn access_is_granted_by_password_alone_at_first_login() {
    assert!(access_granted(Ok(true), false, true));
    assert!(!access_granted(Ok(true), false, false));
}

#[test]
fn access_is_denied_without_the_password() {
    for totp_correct in [false, true] {
        for is_first_login in [false, true] {
            assert!(!access_granted(Ok(false), totp_correct, is_first_login));
            assert!(!access_granted(Err(HashError), totp_correct, is_first_login));
        }
    }
}

#[test]
fn canonical_email_is_lower_case() {
    assert_eq!(canonical_email("Alice@Example.COM"), "alice@example.com");
    assert_eq!(canonical_email("alice@example.com"), "alice@example.com");
    assert_eq!(canonical_email("ÉMILE@EXAMPLE.FR"), "émile@example.fr");
    assert_eq!(canonical_email(""), "");
}

#[test]
fn login_with_password_and_code_opens_a_session() {
    let mut users = Users::new(MemorySessions::new());
    let key = users.login(&form("P@ss1", &present_code()), Ok(alice()), false).unwrap();
    assert_eq!(key.chars().count(), 15);
    assert!(key.is_ascii());
    assert!(users.is_auth(&Session { id: 17, auth_key: key.clone() }));
    assert_eq!(users.sess.get(17), Some(key));
    assert_eq!(users.sess.ttl(17), Some(None));
}

#[test]
fn login_with_a_stale_code_is_unauthorized() {
    let mut users = Users::new(MemorySessions::new());
    let first = users.login(&form("P@ss1", &present_code()), Ok(alice()), false).unwrap();
    assert_eq!(first.len(), 15);
    let second = users.login(&form("P@ss1", &stale_code()), Ok(alice()), false);
    assert_eq!(second, Err(AuthError::Unauthorized));
    assert_eq!(users.sess.get(17), Some(first));
}

#[test]
fn login_with_a_wrong_code_leaves_no_record() {
    let mut users = Users::new(MemorySessions::new());
    let denied = users.login(&form("P@ss1", &stale_code()), Ok(alice()), false);
    assert_eq!(denied, Err(AuthError::Unauthorized));
    assert_eq!(users.sess.get(17), None);
    let malformed = users.login(&form("P@ss1", "12345"), Ok(alice()), false);
    assert_eq!(malformed, Err(AuthError::Unauthorized));
    assert_eq!(users.sess.get(17), None);
}

#[test]
fn first_login_needs_the_password_only() {
    for code in [stale_code(), present_code(), String::new(), "not a code".to_string()] {
        let mut users = Users::new(MemorySessions::new());
        let key = users.login(&form("P@ss1", &code), Ok(alice()), true).unwrap();
        assert_eq!(key.len(), AUTH_KEY_LEN);
        assert!(users.is_auth(&Session { id: 17, auth_key: key }));
    }
}

#[test]
fn login_with_a_wrong_password_is_unauthorized() {
    let mut users = Users::new(MemorySessions::new());
    for is_signup in [false, true] {
        let denied = users.login(&form("P@ss2", &present_code()), Ok(alice()), is_signup);
        assert_eq!(denied, Err(AuthError::Unauthorized));
    }
    assert_eq!(users.sess.get(17), None);
}

#[test]
fn login_against_a_malformed_hash_is_unauthorized() {
    let mut users = Users::new(MemorySessions::new());
    let broken = User { password: "no hash at all".to_string(), ..alice() };
    let denied = users.login(&form("P@ss1", &present_code()), Ok(broken.clone()), true);
    assert_eq!(denied, Err(AuthError::Unauthorized));
    let timed = users.login_for(&form("P@ss1", ""), Ok(broken), Duration::from_secs(60));
    assert_eq!(timed, Err(AuthError::Unauthorized));
    assert_eq!(users.sess.get(17), None);
}

#[test]
fn login_of_an_unknown_email_names_it_as_submitted() {
    let mut users = Users::new(MemorySessions::new());
    let request = Login {
        email: "Nobody@Example.com".to_string(),
        password: "P@ss1".to_string(),
        totp_token: present_code(),
    };
    for failure in [RepoError::NotFound, RepoError::Other("connection lost".to_string())] {
        let denied = users.login(&request, Err(failure), false);
        assert_eq!(denied, Err(AuthError::UnknownEmail("Nobody@Example.com".to_string())));
    }
}

#[test]
fn login_for_opens_a_session_that_expires() {
    let mut users = Users::new(MemorySessions::new());
    let ttl = Duration::from_secs(90);
    let key = users.login_for(&form("P@ss1", ""), Ok(alice()), ttl).unwrap();
    assert_eq!(key.chars().count(), 10);
    assert_eq!(key.len(), TIMED_AUTH_KEY_LEN);
    assert!(key.is_ascii());
    assert_eq!(users.sess.ttl(17), Some(Some(ttl)));
    assert!(users.is_auth(&Session { id: 17, auth_key: key }));
}

#[test]
fn login_for_with_a_wrong_password_is_unauthorized() {
    let mut users = Users::new(MemorySessions::new());
    let denied = users.login_for(&form("p@ss1", ""), Ok(alice()), Duration::from_secs(90));
    assert_eq!(denied, Err(AuthError::Unauthorized));
    assert_eq!(users.sess.ttl(17), None);
}

#[test]
fn login_for_passes_a_repository_failure_on() {
    let mut users = Users::new(MemorySessions::new());
    let ttl = Duration::from_secs(90);
    let missing = users.login_for(&form("P@ss1", ""), Err(RepoError::NotFound), ttl);
    assert_eq!(missing, Err(AuthError::RepositoryFailure(RepoError::NotFound)));
    let lost = RepoError::Other("connection lost".to_string());
    let failed = users.login_for(&form("P@ss1", ""), Err(lost.clone()), ttl);
    assert_eq!(failed, Err(AuthError::RepositoryFailure(lost)));
}

#[test]
fn is_auth_wants_the_id_and_the_key() {
    let mut users = Users::new(MemorySessions::new());
    let key = users.set_auth_key(3).unwrap();
    assert!(users.is_auth(&Session { id: 3, auth_key: key.clone() }));
    assert!(!users.is_auth(&Session { id: 4, auth_key: key.clone() }));
    assert!(!users.is_auth(&Session { id: 3, auth_key: format!("{}x", key) }));
    assert!(!users.is_auth(&Session { id: 3, auth_key: String::new() }));
}

#[test]
fn set_auth_key_replaces_the_earlier_session() {
    let mut users = Users::new(MemorySessions::new());
    let first = users.set_auth_key(3).unwrap();
    let second = users.set_auth_key_for(3, Duration::from_secs(1)).unwrap();
    assert_eq!(first.len(), 15);
    assert_eq!(second.len(), 10);
    assert!(!users.is_auth(&Session { id: 3, auth_key: first }));
    assert!(users.is_auth(&Session { id: 3, auth_key: second }));
}

#[test]
fn logout_ends_the_session_and_may_be_repeated() {
    let mut users = Users::new(MemorySessions::new());
    let session = Session { id: 3, auth_key: users.set_auth_key(3).unwrap() };
    let other = Session { id: 4, auth_key: users.set_auth_key(4).unwrap() };
    assert_eq!(users.logout(&session), Ok(()));
    assert!(!users.is_auth(&session));
    assert_eq!(users.logout(&session), Ok(()));
    assert!(!users.is_auth(&session));
    assert!(users.is_auth(&other));
}

#[test]
fn logout_with_a_wrong_key_changes_nothing() {
    let mut users = Users::new(MemorySessions::new());
    let session = Session { id: 3, auth_key: users.set_auth_key(3).unwrap() };
    let forged = Session { id: 3, auth_key: "forged".to_string() };
    assert_eq!(users.logout(&forged), Ok(()));
    assert!(users.is_auth(&session));
}

#[test]
fn a_failure_of_the_store_is_passed_on() {
    let failure = StoreError { reason: "connection refused".to_string() };
    assert_eq!(
        stored("key".to_string(), Err(failure.clone())),
        Err(AuthError::StoreFailure(failure.clone()))
    );
    assert_eq!(stored((), Err(failure.clone())), Err(AuthError::StoreFailure(failure)));
    assert_eq!(stored("key".to_string(), Ok(())), Ok("key".to_string()));
    assert_eq!(stored((), Ok(())), Ok(()));
}

#[test]
fn signup_asks_for_a_user_under_the_canonical_email() {
    let users = Users::new(MemorySessions::new());
    let request = Signup { email: "Bob@Example.COM".to_string(), password: "S3cret!pw".to_string() };
    let user = users.signup(&request, Ok(()));
    assert_eq!(
        user,
        Ok(NewUser {
            email: "bob@example.com".to_string(),
            password: "S3cret!pw".to_string(),
            totp_enabled: false,
        })
    );
    assert_eq!(users.sess.get(0), None);
}

#[test]
fn signup_passes_a_validation_failure_on() {
    let users = Users::new(MemorySessions::new());
    let request = Signup { email: "bob".to_string(), password: "pw".to_string() };
    let failure = ValidationError { details: "email: not an address".to_string() };
    let user = users.signup(&request, Err(failure.clone()));
    assert_eq!(user, Err(AuthError::ValidationFailed(failure)));
}

#[test]
fn signup_for_a_taken_email_is_reported() {
    let users = Users::new(MemorySessions::new());
    assert_eq!(
        users.signup_result(Err(RepoError::DuplicateKey)),
        Err(AuthError::EmailAlreadyExists)
    );
}

#[test]
fn signup_passes_other_repository_failures_on() {
    let users = Users::new(MemorySessions::new());
    assert_eq!(users.signup_result(Ok(())), Ok(()));
    for failure in [RepoError::NotFound, RepoError::Other("disk full".to_string())] {
        assert_eq!(
            users.signup_result(Err(failure.clone())),
            Err(AuthError::RepositoryFailure(failure))
        );
    }
}

#[test]
fn a_database_failure_is_a_duplicate_by_its_code() {
    let message = "UNIQUE constraint failed".to_string();
    assert_eq!(RepoError::from_database(Some("23000"), message.clone()), RepoError::DuplicateKey);
    assert_eq!(
        RepoError::from_database(Some("23505"), message.clone()),
        RepoError::Other(message.clone())
    );
    assert_eq!(
        RepoError::from_database(Some(""), message.clone()),
        RepoError::Other(message.clone())
    );
    assert_eq!(RepoError::from_database(None, message.clone()), RepoError::Other(message));
}
