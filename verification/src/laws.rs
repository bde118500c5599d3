//! What holds of the service across its operations, whatever the store.

use crate::error::{AuthError, HashError, RepoError};
use crate::session::{authenticated, issued, revoked, SessionRecord};
use crate::users::{grants, logged_out, signup_outcome, surely_denied, surely_granted};
use std::time::Duration;
use vstd::prelude::*;

verus! {

/// A login with the right password and the right one-time code is let in,
/// first login or not, and the session issued to it is authenticated from
/// then on.
pub proof fn login_with_both_factors_authenticates(
    records: Map<i32, SessionRecord>,
    user_id: i32,
    auth_key: Seq<char>,
    is_first_login: bool,
)
    ensures
        grants(Ok(true), true, is_first_login),
        authenticated(issued(records, user_id, auth_key, None), user_id, auth_key),
{
}

/// A login with the right password and a wrong one-time code is turned
/// away, unless it is the first login after signup.
pub proof fn wrong_code_is_turned_away(password: Result<bool, HashError>)
    ensures
        !grants(password, false, false),
{
}

/// Without the right password nobody is let in, whatever the one-time code
/// and whether or not it is the first login.
pub proof fn wrong_password_is_turned_away(
    password: Result<bool, HashError>,
    totp_correct: bool,
    is_first_login: bool,
)
    requires
        password != Ok::<bool, HashError>(true),
    ensures
        !grants(password, totp_correct, is_first_login),
{
}

/// At the first login after signup the right password is enough, whatever
/// the one-time code.
pub proof fn first_login_needs_no_code(totp_correct: bool)
    ensures
        grants(Ok(true), totp_correct, true),
{
}

/// What is sure of a login before the clock is read agrees with the decision
/// made once the one-time code has been checked, given that only a
/// plausible code is ever found right.
pub proof fn sure_outcomes_are_decided_so(
    password: Result<bool, HashError>,
    totp_plausible: bool,
    totp_correct: bool,
    is_first_login: bool,
)
    requires
        totp_correct ==> totp_plausible,
    ensures
        surely_granted(password, is_first_login) ==> grants(password, totp_correct, is_first_login),
        surely_denied(password, totp_plausible, is_first_login) ==> !grants(
            password,
            totp_correct,
            is_first_login,
        ),
{
}

/// A signup for an email that is taken fails with
/// [`AuthError::EmailAlreadyExists`]; any other failure of the repository is
/// passed on as it is.
pub proof fn duplicate_signup_is_reported(failure: RepoError)
    ensures
        signup_outcome(Err(RepoError::DuplicateKey)) == Err::<(), AuthError>(
            AuthError::EmailAlreadyExists,
        ),
        failure != RepoError::DuplicateKey ==> signup_outcome(Err(failure)) == Err::<
            (),
            AuthError,
        >(AuthError::RepositoryFailure(failure)),
{
}

/// After a logout the session is not authenticated, whoever else holds a
/// key for its id, and a second logout changes nothing.
pub proof fn logout_ends_the_session(
    records: Map<i32, SessionRecord>,
    id: i32,
    auth_key: Seq<char>,
)
    ensures
        !authenticated(logged_out(records, id, auth_key), id, auth_key),
        logged_out(logged_out(records, id, auth_key), id, auth_key) == logged_out(
            records,
            id,
            auth_key,
        ),
{
}

/// A logout touches no session but its own.
pub proof fn logout_spares_other_sessions(
    records: Map<i32, SessionRecord>,
    id: i32,
    auth_key: Seq<char>,
    other: i32,
)
    requires
        other != id,
    ensures
        logged_out(records, id, auth_key).contains_key(other) == records.contains_key(other),
        records.contains_key(other) ==> logged_out(records, id, auth_key)[other]
            == records[other],
{
}

/// The record of a session carries the time to live that it was issued
/// with, and the sessions of other users stay as they were.
pub proof fn issued_session_carries_its_ttl(
    records: Map<i32, SessionRecord>,
    user_id: i32,
    auth_key: Seq<char>,
    ttl: Option<Duration>,
    other: i32,
)
    ensures
        issued(records, user_id, auth_key, ttl).contains_key(user_id),
        issued(records, user_id, auth_key, ttl)[user_id].ttl == ttl,
        issued(records, user_id, auth_key, ttl)[user_id].auth_key == auth_key,
        other != user_id ==> issued(records, user_id, auth_key, ttl).contains_key(other)
            == records.contains_key(other),
        other != user_id && records.contains_key(other) ==> issued(
            records,
            user_id,
            auth_key,
            ttl,
        )[other] == records[other],
{
}

/// A session that was revoked is not authenticated under any key.
pub proof fn revoked_session_is_not_authenticated(
    records: Map<i32, SessionRecord>,
    id: i32,
    auth_key: Seq<char>,
)
    ensures
        !authenticated(revoked(records, id), id, auth_key),
{
}

} // verus!
