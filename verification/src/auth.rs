use crate::error::AppError;
use crate::text::{fits_bind, lemma_utf8_len_bound, utf8_len};
use validator::ValidateEmail;
use vstd::prelude::*;

verus! {

/// The fewest bytes a password may have.
pub const MIN_PASSWORD_BYTES: usize = 8;

/// The body of a registration request.
pub struct RegisterRequest {
    pub email: String,
    pub password: String,
}

/// The answer to a registration: the new user's id and email.
pub struct RegisterResponse {
    pub id: u128,
    pub email: String,
}

/// The body of a login request.
pub struct LoginRequest {
    pub email: String,
    pub password: String,
}

/// The answer to a login: the token that authenticates the user.
pub struct LoginResponse {
    pub token: String,
}

/// A stored account: its id, email and password hash.
pub struct User {
    pub id: u128,
    pub email: String,
    pub password_hash: String,
}

/// An account ready to be stored: the email and the hash of the password.
pub struct NewUser {
    pub email: String,
    pub password_hash: String,
}

#[verifier::external_type_specification]
#[verifier::external_body]
pub struct ExBcryptError(bcrypt::BcryptError);

/// Whether `validator` accepts `text` as an email address (HTML5 rules).
pub uninterp spec fn email_valid(text: Seq<char>) -> bool;

/// What `bcrypt::verify` answers for `password` against `hash`:
/// `Some(b)` when it returns `Ok(b)`, `None` when it returns an error.
pub uninterp spec fn bcrypt_verification(password: Seq<char>, hash: Seq<char>) -> Option<bool>;

/// `ValidateEmail::validate_email` on a string: its result is `email_valid`;
/// an empty text, or one without `@`, is refused, and an accepted one has a
/// local part of at most 64 characters and a domain of at most 255.
#[verifier::external_body]
fn check_email(email: &str) -> (r: bool)
    ensures
        r == email_valid(email@),
        email@.len() == 0 ==> !r,
        !email@.contains('@') ==> !r,
        r ==> email@.len() <= 320,
{
    email.validate_email()
}

/// A stored bcrypt hash of version 2b at cost 12 (`bcrypt::DEFAULT_COST`):
/// 60 characters that begin with `$2b$12$`.
pub open spec fn is_default_cost_hash(h: Seq<char>) -> bool {
    &&& h.len() == 60
    &&& h.subrange(0, 7) == "$2b$12$"@
}

/// `bcrypt::hash` at `bcrypt::DEFAULT_COST` (12). The salt is random, so the
/// hash is not a function of the password; what holds of every hash it returns
/// is that it is written as version 2b at cost 12 (`$2b$12$` and 53 more
/// characters) and that `bcrypt::verify` accepts the same password against it.
/// When the call fails (the system's randomness failing) is not stated.
#[verifier::external_body]
fn bcrypt_hash(password: &str) -> (r: Result<String, bcrypt::BcryptError>)
    ensures
        r matches Ok(h) ==> bcrypt_verification(password@, h@) == Some(true)
            && is_default_cost_hash(h@),
{
    bcrypt::hash(password, bcrypt::DEFAULT_COST)
}

/// `bcrypt::verify`: its answer is `bcrypt_verification`.
#[verifier::external_body]
fn bcrypt_verify(password: &str, hash: &str) -> (r: Result<bool, bcrypt::BcryptError>)
    ensures
        match r {
            Ok(b) => bcrypt_verification(password@, hash@) == Some(b),
            Err(_) => bcrypt_verification(password@, hash@) is None,
        },
{
    bcrypt::verify(password, hash)
}

/// The answer to an email address that is not valid.
pub open spec fn is_email_error(e: AppError) -> bool {
    e matches AppError::BadRequest(m) && m@ == "Invalid email format"@
}

/// The answer to a password shorter than eight bytes.
pub open spec fn is_password_error(e: AppError) -> bool {
    e matches AppError::BadRequest(m) && m@ == "Password must be at least 8 characters long"@
}

/// The answer to a registration's fields, given whether the email address was
/// accepted: the email error first, then the password length in bytes.
pub fn registration_check(email_accepted: bool, password: &str) -> (r: Result<(), AppError>)
    requires
        utf8_len(password@) <= usize::MAX,
    ensures
        !email_accepted ==> (r matches Err(e) && is_email_error(e)),
        email_accepted && utf8_len(password@) < MIN_PASSWORD_BYTES ==> (r matches Err(e)
            && is_password_error(e)),
        email_accepted && utf8_len(password@) >= MIN_PASSWORD_BYTES ==> r is Ok,
{
    if !email_accepted {
        return Err(AppError::BadRequest("Invalid email format".to_owned()));
    }
    if password.len() < MIN_PASSWORD_BYTES {
        return Err(AppError::BadRequest("Password must be at least 8 characters long".to_owned()));
    }
    Ok(())
}

/// Checks the fields of a registration: first the email, then the password
/// length in bytes. An empty address, or one without `@`, is refused.
pub fn validate_registration(email: &str, password: &str) -> (r: Result<(), AppError>)
    requires
        utf8_len(password@) <= usize::MAX,
    ensures
        !email_valid(email@) ==> (r matches Err(e) && is_email_error(e)),
        email@.len() == 0 || !email@.contains('@') ==> (r matches Err(e) && is_email_error(e)),
        email_valid(email@) && utf8_len(password@) < MIN_PASSWORD_BYTES ==> (r matches Err(e)
            && is_password_error(e)),
        email_valid(email@) && utf8_len(password@) >= MIN_PASSWORD_BYTES ==> r is Ok,
        r is Ok ==> email@.len() <= 320,
{
    let accepted = check_email(email);
    registration_check(accepted, password)
}

/// Hashes a password for storage with bcrypt at its default cost. Every hash
/// returned is a version 2b, cost 12 hash that verifies against the password;
/// a failure of the hashing is answered with an internal error.
pub fn hash_password(password: &str) -> (r: Result<String, AppError>)
    ensures
        r matches Ok(h) ==> bcrypt_verification(password@, h@) == Some(true)
            && is_default_cost_hash(h@),
        r matches Err(e) ==> (e matches AppError::Internal(m) && m@ == "Password hashing failed"@),
{
    match bcrypt_hash(password) {
        Ok(h) => hashing_outcome(Some(h)),
        Err(_) => hashing_outcome(None),
    }
}

/// The answer of a hashing, given what `bcrypt::hash` returned: the hash it
/// made, or the internal error when it failed.
pub fn hashing_outcome(hashed: Option<String>) -> (r: Result<String, AppError>)
    ensures
        match hashed {
            Some(h) => r == Ok::<String, AppError>(h),
            None => (r matches Err(AppError::Internal(m)) && m@ == "Password hashing failed"@),
        },
{
    match hashed {
        Some(h) => Ok(h),
        None => Err(AppError::Internal("Password hashing failed".to_owned())),
    }
}

/// The answer of a password check, given what `bcrypt::verify` answered.
pub fn verification_outcome(verification: Option<bool>) -> (r: Result<bool, AppError>)
    ensures
        match verification {
            Some(b) => r == Ok::<bool, AppError>(b),
            None => (r matches Err(AppError::Internal(m)) && m@ == "Password verification failed"@),
        },
{
    match verification {
        Some(b) => Ok(b),
        None => Err(AppError::Internal("Password verification failed".to_owned())),
    }
}

/// Checks a password against a stored hash.
pub fn verify_password(password: &str, password_hash: &str) -> (r: Result<bool, AppError>)
    ensures
        match bcrypt_verification(password@, password_hash@) {
            Some(b) => r == Ok::<bool, AppError>(b),
            None => (r matches Err(AppError::Internal(m)) && m@ == "Password verification failed"@),
        },
{
    match bcrypt_verify(password, password_hash) {
        Ok(b) => verification_outcome(Some(b)),
        Err(_) => verification_outcome(None),
    }
}

/// Checks a registration and hashes its password: the account to store.
pub fn prepare_registration(request: RegisterRequest) -> (r: Result<NewUser, AppError>)
    requires
        utf8_len(request.password@) <= usize::MAX,
    ensures
        !email_valid(request.email@) ==> (r matches Err(e) && is_email_error(e)),
        request.email@.len() == 0 || !request.email@.contains('@') ==> (r matches Err(e)
            && is_email_error(e)),
        email_valid(request.email@) && utf8_len(request.password@) < MIN_PASSWORD_BYTES ==> (r matches Err(e)
            && is_password_error(e)),
        email_valid(request.email@) && utf8_len(request.password@) >= MIN_PASSWORD_BYTES ==> (
        r matches Ok(u) && u.email == request.email && bcrypt_verification(
            request.password@,
            u.password_hash@,
        ) == Some(true) && is_default_cost_hash(u.password_hash@)) || (r matches Err(
            AppError::Internal(m),
        ) && m@ == "Password hashing failed"@),
        r matches Ok(u) ==> fits_bind(u.email@) && fits_bind(u.password_hash@),
{
    validate_registration(request.email.as_str(), request.password.as_str())?;
    let password_hash = hash_password(request.password.as_str())?;
    proof {
        lemma_utf8_len_bound(request.email@);
        lemma_utf8_len_bound(password_hash@);
    }
    Ok(NewUser { email: request.email, password_hash })
}

/// What a login comes to.
pub enum LoginOutcome {
    /// The password matches: the user with this id is logged in.
    Accepted(u128),
    /// No account has the email, or the password does not match.
    Rejected,
    /// The stored hash could not be read.
    Unverifiable,
}

/// What a login comes to, given the stored account for the email, if any,
/// and the password offered.
pub open spec fn login_outcome(account: Option<User>, password: Seq<char>) -> LoginOutcome {
    match account {
        None => LoginOutcome::Rejected,
        Some(u) => match bcrypt_verification(password, u.password_hash@) {
            Some(true) => LoginOutcome::Accepted(u.id),
            Some(false) => LoginOutcome::Rejected,
            None => LoginOutcome::Unverifiable,
        },
    }
}

/// Checks a login against the account stored for its email: the id of the
/// user to issue a token for.
pub fn authenticate(account: Option<User>, password: &str) -> (r: Result<u128, AppError>)
    ensures
        match login_outcome(account, password@) {
            LoginOutcome::Accepted(id) => r == Ok::<u128, AppError>(id),
            LoginOutcome::Rejected => r == Err::<u128, AppError>(AppError::Unauthorized),
            LoginOutcome::Unverifiable => (r matches Err(AppError::Internal(m)) && m@
                == "Password verification failed"@),
        },
{
    let user = match account {
        Some(u) => u,
        None => return Err(AppError::Unauthorized),
    };
    if !verify_password(password, user.password_hash.as_str())? {
        return Err(AppError::Unauthorized);
    }
    Ok(user.id)
}

/// A login with an unknown email and one with a wrong password are answered
/// alike, so that an answer does not tell whether an email is registered.
pub proof fn lemma_failed_logins_look_alike(user: User, password: Seq<char>)
    requires
        bcrypt_verification(password, user.password_hash@) == Some(false),
    ensures
        login_outcome(None, password) == login_outcome(Some(user), password),
        login_outcome(None, password) == LoginOutcome::Rejected,
{
}

/// An account whose hash `hash_password` made from a password is logged in
/// with that password.
pub proof fn lemma_registered_password_logs_in(user: User, password: Seq<char>)
    requires
        bcrypt_verification(password, user.password_hash@) == Some(true),
    ensures
        login_outcome(Some(user), password) == LoginOutcome::Accepted(user.id),
{
}

} // verus!
