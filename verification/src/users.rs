//! The authentication service: who is let in, and which sessions stand.
//!
//! The service keeps the session store and nothing else. The user
//! repository is asked by the caller, who hands in what it answered.

use crate::credentials::{password_verdict, totp_plausible, verify_password, verify_totp};
use crate::error::{AuthError, HashError, RepoError, StoreError, ValidationError};
use crate::session::{authenticated, issued, revoked, Session, SessionManager, SessionRecord};
use crate::token::rand_string;
use std::time::Duration;
use vstd::prelude::*;
use vstd::utf8::is_ascii_chars;

verus! {

/// The length of the key of a session that does not expire.
pub const AUTH_KEY_LEN: usize = 15;

/// The length of the key of a session that expires.
pub const TIMED_AUTH_KEY_LEN: usize = 10;

/// A user record, as the repository holds it.
#[derive(Debug, Clone, PartialEq, Eq)]
pub struct User {
    pub id: i32,
    /// Lower-cased and unique among the users.
    pub email: String,
    /// The encoded hash of the password.
    pub password: String,
    /// The secret of the one-time codes. It means something only once the
    /// user has set the second factor up.
    pub totp_secret: String,
}

/// A request to log in.
#[derive(Debug, Clone, PartialEq, Eq)]
pub struct Login {
    pub email: String,
    pub password: String,
    pub totp_token: String,
}

/// A request to sign up.
#[derive(Debug, Clone, PartialEq, Eq)]
pub struct Signup {
    pub email: String,
    pub password: String,
}

/// The user record that a signup asks the repository to create.
#[derive(Debug, Clone, PartialEq, Eq)]
pub struct NewUser {
    pub email: String,
    pub password: String,
    /// Whether the second factor is set up; a new user has yet to do so.
    pub totp_enabled: bool,
}

/// What `str::to_lowercase` makes of a string.
pub uninterp spec fn lowercase_of(s: Seq<char>) -> Seq<char>;

/// `str::to_lowercase`: the string with each character replaced by its
/// lower-case form as Unicode defines it.
pub assume_specification[ str::to_lowercase ](s: &str) -> (lower: String)
    ensures
        lower@ == lowercase_of(s@),
;

/// The form in which an email is stored and looked up.
pub fn canonical_email(email: &str) -> (canonical: String)
    ensures
        canonical@ == lowercase_of(email@),
{
    email.to_lowercase()
}

/// Whether a login is let in: the password must be right, and so must the
/// one-time code unless this is the first login after signup.
pub open spec fn grants(
    password: Result<bool, HashError>,
    totp_correct: bool,
    is_first_login: bool,
) -> bool {
    password == Ok::<bool, HashError>(true) && (totp_correct || is_first_login)
}

/// Whether a login is turned away at whatever time it is made: the password
/// is not right, or a one-time code is needed and the submitted one cannot
/// be right.
pub open spec fn surely_denied(
    password: Result<bool, HashError>,
    totp_plausible: bool,
    is_first_login: bool,
) -> bool {
    password != Ok::<bool, HashError>(true) || (!totp_plausible && !is_first_login)
}

/// Whether a login is let in at whatever time it is made: the password is
/// right and no one-time code is needed.
pub open spec fn surely_granted(password: Result<bool, HashError>, is_first_login: bool) -> bool {
    password == Ok::<bool, HashError>(true) && is_first_login
}

/// Decides a login from the outcome of its checks.
pub fn access_granted(
    password: Result<bool, HashError>,
    totp_correct: bool,
    is_first_login: bool,
) -> (granted: bool)
    ensures
        granted == grants(password, totp_correct, is_first_login),
{
    let pwd_correct = match password {
        Ok(matches) => matches,
        Err(_) => false,
    };
    (pwd_correct && totp_correct) || (pwd_correct && is_first_login)
}

/// What the repository's answer to the creation of a user means for the
/// signup that asked for it.
pub open spec fn signup_outcome(created: Result<(), RepoError>) -> Result<(), AuthError> {
    match created {
        Ok(_) => Ok(()),
        Err(RepoError::DuplicateKey) => Err(AuthError::EmailAlreadyExists),
        Err(e) => Err(AuthError::RepositoryFailure(e)),
    }
}

/// What an operation that went through the store comes to: `value` where
/// the store did its part, and the store's failure where it did not.
pub fn stored<T>(value: T, outcome: Result<(), StoreError>) -> (result: Result<T, AuthError>)
    ensures
        result == match outcome {
            Ok(_) => Ok::<T, AuthError>(value),
            Err(failure) => Err::<T, AuthError>(AuthError::StoreFailure(failure)),
        },
{
    match outcome {
        Ok(_) => Ok(value),
        Err(failure) => Err(AuthError::StoreFailure(failure)),
    }
}

/// Whether the step from the records `before` to the records `after` opened a
/// session for `user_id` under the key `auth_key`, `len` ASCII characters
/// long, in place of any earlier session of that user.
pub open spec fn session_opened(
    before: Map<i32, SessionRecord>,
    after: Map<i32, SessionRecord>,
    user_id: i32,
    auth_key: Seq<char>,
    len: usize,
    ttl: Option<Duration>,
) -> bool {
    &&& auth_key.len() == len
    &&& is_ascii_chars(auth_key)
    &&& after == issued(before, user_id, auth_key, ttl)
}

/// The records after the session `id` with key `auth_key` has logged out of
/// `records`.
pub open spec fn logged_out(
    records: Map<i32, SessionRecord>,
    id: i32,
    auth_key: Seq<char>,
) -> Map<i32, SessionRecord> {
    if authenticated(records, id, auth_key) {
        revoked(records, id)
    } else {
        records
    }
}

/// The authentication service over a session store.
pub struct Users<S: SessionManager> {
    pub sess: S,
}

impl<S: SessionManager> Users<S> {
    /// A service that keeps its sessions in `sess`.
    pub fn new(sess: S) -> (users: Self)
        ensures
            users.sess == sess,
    {
        Users { sess }
    }

    /// Whether `session` is authenticated: the store has a record for its id
    /// and the keys agree.
    pub fn is_auth(&self, session: &Session) -> (yes: bool)
        ensures
            yes == authenticated(self.sess.records(), session.id, session.auth_key@),
    {
        let option = self.sess.get(session.id);
        if let Some(auth_key) = option {
            auth_key == session.auth_key
        } else {
            false
        }
    }

    /// Logs a user in with password and one-time code, and returns the key
    /// of the session issued to them.
    ///
    /// `found` is what the repository answered when asked for the user with
    /// the canonical form of the submitted email. The one-time code is
    /// checked whatever the password check came to. With `is_signup` set,
    /// for the first login after signup, the right password is enough.
    /// Whether a one-time code of the right length is right depends on the
    /// time of the call; [`Users::authorize`] says what follows from either
    /// answer.
    pub fn login(&mut self, form: &Login, found: Result<User, RepoError>, is_signup: bool) -> (key:
        Result<String, AuthError>)
        ensures
            match found {
                Err(_) => {
                    &&& key == Err::<String, AuthError>(AuthError::UnknownEmail(form.email))
                    &&& final(self).sess.records() == old(self).sess.records()
                },
                Ok(user) => {
                    let password = password_verdict(user.password@, form.password@);
                    let plausible = totp_plausible(user.totp_secret@, form.totp_token@);
                    match key {
                        Ok(k) => {
                            &&& !surely_denied(password, plausible, is_signup)
                            &&& session_opened(
                                old(self).sess.records(),
                                final(self).sess.records(),
                                user.id,
                                k@,
                                AUTH_KEY_LEN,
                                None,
                            )
                            &&& authenticated(final(self).sess.records(), user.id, k@)
                        },
                        Err(e) => {
                            &&& final(self).sess.records() == old(self).sess.records()
                            &&& match e {
                                AuthError::Unauthorized => !surely_granted(password, is_signup),
                                AuthError::StoreFailure(_) => {
                                    &&& !surely_denied(password, plausible, is_signup)
                                    &&& !old(self).sess.reliable()
                                },
                                _ => false,
                            }
                        },
                    }
                },
            },
            final(self).sess.reliable() == old(self).sess.reliable(),
    {
        let user = match found {
            Ok(user) => user,
            Err(_) => {
                return Err(AuthError::UnknownEmail(form.email.clone()));
            },
        };
        let pwd_correct = verify_password(user.password.as_str(), form.password.as_str());
        let is_first_login = is_signup;
        let totp_correct = verify_totp(user.totp_secret.as_str(), form.totp_token.as_str());
        self.authorize(user.id, pwd_correct, totp_correct, is_first_login)
    }

    /// Lets a user in or turns them away, given what the checks of their
    /// password and one-time code came to. Whoever is let in gets a session
    /// that does not expire; whoever is turned away learns nothing of which
    /// check failed, and no session is touched.
    pub fn authorize(
        &mut self,
        user_id: i32,
        password: Result<bool, HashError>,
        totp_correct: bool,
        is_first_login: bool,
    ) -> (key: Result<String, AuthError>)
        ensures
            match key {
                Ok(k) => {
                    &&& grants(password, totp_correct, is_first_login)
                    &&& session_opened(
                        old(self).sess.records(),
                        final(self).sess.records(),
                        user_id,
                        k@,
                        AUTH_KEY_LEN,
                        None,
                    )
                    &&& authenticated(final(self).sess.records(), user_id, k@)
                },
                Err(e) => {
                    &&& final(self).sess.records() == old(self).sess.records()
                    &&& if grants(password, totp_correct, is_first_login) {
                        e is StoreFailure && !old(self).sess.reliable()
                    } else {
                        e == AuthError::Unauthorized
                    }
                },
            },
            final(self).sess.reliable() == old(self).sess.reliable(),
    {
        if access_granted(password, totp_correct, is_first_login) {
            self.set_auth_key(user_id)
        } else {
            Err(AuthError::Unauthorized)
        }
    }

    /// Logs a user in with the password alone, for a session that lasts for
    /// `time`, and returns its key.
    ///
    /// `found` is what the repository answered when asked for the user with
    /// the canonical form of the submitted email; its failure is passed on.
    pub fn login_for(&mut self, form: &Login, found: Result<User, RepoError>, time: Duration) -> (key:
        Result<String, AuthError>)
        ensures
            match found {
                Err(failure) => {
                    &&& key == Err::<String, AuthError>(AuthError::RepositoryFailure(failure))
                    &&& final(self).sess.records() == old(self).sess.records()
                },
                Ok(user) => {
                    let password = password_verdict(user.password@, form.password@);
                    match key {
                        Ok(k) => {
                            &&& password == Ok::<bool, HashError>(true)
                            &&& session_opened(
                                old(self).sess.records(),
                                final(self).sess.records(),
                                user.id,
                                k@,
                                TIMED_AUTH_KEY_LEN,
                                Some(time),
                            )
                            &&& authenticated(final(self).sess.records(), user.id, k@)
                        },
                        Err(e) => {
                            &&& final(self).sess.records() == old(self).sess.records()
                            &&& if password == Ok::<bool, HashError>(true) {
                                e is StoreFailure && !old(self).sess.reliable()
                            } else {
                                e == AuthError::Unauthorized
                            }
                        },
                    }
                },
            },
            final(self).sess.reliable() == old(self).sess.reliable(),
    {
        let user = match found {
            Ok(user) => user,
            Err(failure) => {
                return Err(AuthError::RepositoryFailure(failure));
            },
        };
        match verify_password(user.password.as_str(), form.password.as_str()) {
            Ok(true) => self.set_auth_key_for(user.id, time),
            _ => Err(AuthError::Unauthorized),
        }
    }

    /// Starts a signup: says which user record the repository is to create.
    ///
    /// `validation` is what field validation made of `form`; its failure is
    /// passed on. No session comes of a signup.
    pub fn signup(&self, form: &Signup, validation: Result<(), ValidationError>) -> (user: Result<
        NewUser,
        AuthError,
    >)
        ensures
            match validation {
                Err(failure) => user == Err::<NewUser, AuthError>(
                    AuthError::ValidationFailed(failure),
                ),
                Ok(_) => {
                    &&& user matches Ok(new)
                    &&& new.email@ == lowercase_of(form.email@)
                    &&& new.password@ == form.password@
                    &&& !new.totp_enabled
                },
            },
    {
        match validation {
            Err(failure) => Err(AuthError::ValidationFailed(failure)),
            Ok(_) => Ok(
                NewUser {
                    email: canonical_email(form.email.as_str()),
                    password: form.password.clone(),
                    totp_enabled: false,
                },
            ),
        }
    }

    /// Ends a signup, given what the repository answered to the creation of
    /// the user: a duplicate key means that the email is taken, and any
    /// other failure is passed on.
    pub fn signup_result(&self, created: Result<(), RepoError>) -> (done: Result<(), AuthError>)
        ensures
            done == signup_outcome(created),
    {
        match created {
            Ok(_) => Ok(()),
            Err(RepoError::DuplicateKey) => Err(AuthError::EmailAlreadyExists),
            Err(failure) => Err(AuthError::RepositoryFailure(failure)),
        }
    }

    /// Ends `session` if it is authenticated, and does nothing otherwise.
    pub fn logout(&mut self, session: &Session) -> (done: Result<(), AuthError>)
        ensures
            match done {
                Ok(_) => {
                    &&& final(self).sess.records() == logged_out(
                        old(self).sess.records(),
                        session.id,
                        session.auth_key@,
                    )
                    &&& !authenticated(final(self).sess.records(), session.id, session.auth_key@)
                },
                Err(e) => {
                    &&& e is StoreFailure
                    &&& !old(self).sess.reliable()
                    &&& authenticated(old(self).sess.records(), session.id, session.auth_key@)
                    &&& final(self).sess.records() == old(self).sess.records()
                },
            },
            final(self).sess.reliable() == old(self).sess.reliable(),
    {
        if self.is_auth(session) {
            let outcome = self.sess.remove(session.id);
            stored((), outcome)
        } else {
            Ok(())
        }
    }

    /// Issues a session that lasts for `time` to `user_id` and returns its
    /// key. An earlier session of that user is replaced.
    pub fn set_auth_key_for(&mut self, user_id: i32, time: Duration) -> (key: Result<
        String,
        AuthError,
    >)
        ensures
            match key {
                Ok(k) => session_opened(
                    old(self).sess.records(),
                    final(self).sess.records(),
                    user_id,
                    k@,
                    TIMED_AUTH_KEY_LEN,
                    Some(time),
                ),
                Err(e) => {
                    &&& e is StoreFailure
                    &&& !old(self).sess.reliable()
                    &&& final(self).sess.records() == old(self).sess.records()
                },
            },
            final(self).sess.reliable() == old(self).sess.reliable(),
    {
        let key = rand_string(TIMED_AUTH_KEY_LEN);
        let outcome = self.sess.insert_for(user_id, key.clone(), time);
        stored(key, outcome)
    }

    /// Issues a session that does not expire to `user_id` and returns its
    /// key. An earlier session of that user is replaced.
    pub fn set_auth_key(&mut self, user_id: i32) -> (key: Result<String, AuthError>)
        ensures
            match key {
                Ok(k) => session_opened(
                    old(self).sess.records(),
                    final(self).sess.records(),
                    user_id,
                    k@,
                    AUTH_KEY_LEN,
                    None,
                ),
                Err(e) => {
                    &&& e is StoreFailure
                    &&& !old(self).sess.reliable()
                    &&& final(self).sess.records() == old(self).sess.records()
                },
            },
            final(self).sess.reliable() == old(self).sess.reliable(),
    {
        let key = rand_string(AUTH_KEY_LEN);
        let outcome = self.sess.insert(user_id, key.clone());
        stored(key, outcome)
    }
}

} // verus!
