use tasks_backend::auth::{
    authenticate, registration_check, hash_password, prepare_registration, verification_outcome, verify_password,
    RegisterRequest, User,
};
use tasks_backend::error::AppError;

fn stored(id: u128, password: &str) -> User {
    User {
        id,
        email: "test@example.com".to_string(),
        password_hash: hash_password(password).unwrap(),
    }
}

#[test]
fn hashed_password_verifies() {
    let hash = hash_password("password123").unwrap();
    assert_ne!(hash, "password123");
    assert_eq!(hash.len(), 60);
    assert!(hash.starts_with("$2b$12$"));
    assert_eq!(verify_password("password123", &hash), Ok(true));
    assert_eq!(verify_password("password124", &hash), Ok(false));
}

#[test]
fn malformed_hash_is_internal_error() {
    assert_eq!(
        verify_password("password123", "not-a-bcrypt-hash"),
        Err(AppError::Internal("Password verification failed".to_string()))
    );
}

#[test]
fn verification_outcomes() {
    assert_eq!(verification_outcome(Some(true)), Ok(true));
    assert_eq!(verification_outcome(Some(false)), Ok(false));
    assert_eq!(
        verification_outcome(None),
        Err(AppError::Internal("Password verification failed".to_string()))
    );
}

#[test]
fn registration_stores_email_and_hash() {
    let user = prepare_registration(RegisterRequest {
        email: "test@example.com".to_string(),
        password: "password123".to_string(),
    })
    .unwrap();
    assert_eq!(user.email, "test@example.com");
    assert_ne!(user.password_hash, "password123");
    assert_eq!(verify_password("password123", &user.password_hash), Ok(true));
}

#[test]
fn registration_refuses_invalid_email() {
    let r = prepare_registration(RegisterRequest {
        email: "invalid-email".to_string(),
        password: "password123".to_string(),
    });
    assert_eq!(r.err(), Some(AppError::BadRequest("Invalid email format".to_string())));
}

#[test]
fn registration_refuses_short_password() {
    let r = prepare_registration(RegisterRequest {
        email: "test@example.com".to_string(),
        password: "pass".to_string(),
    });
    assert_eq!(
        r.err(),
        Some(AppError::BadRequest("Password must be at least 8 characters long".to_string()))
    );
}

#[test]
fn login_with_right_password() {
    assert_eq!(authenticate(Some(stored(42, "password123")), "password123"), Ok(42));
}

#[test]
fn login_unknown_email_and_wrong_password_look_alike() {
    let unknown = authenticate(None, "password123");
    let wrong = authenticate(Some(stored(42, "password123")), "wrong-password");
    assert_eq!(unknown, Err(AppError::Unauthorized));
    assert_eq!(wrong, Err(AppError::Unauthorized));
}

#[test]
fn login_with_unreadable_hash() {
    let user = User {
        id: 1,
        email: "test@example.com".to_string(),
        password_hash: "garbage".to_string(),
    };
    assert_eq!(
        authenticate(Some(user), "password123"),
        Err(AppError::Internal("Password verification failed".to_string()))
    );
}

#[test]
fn registration_check_after_email_answer() {
    assert_eq!(
        registration_check(false, "password123"),
        Err(AppError::BadRequest("Invalid email format".to_string()))
    );
    assert_eq!(
        registration_check(true, "short"),
        Err(AppError::BadRequest("Password must be at least 8 characters long".to_string()))
    );
    assert_eq!(registration_check(true, "password123"), Ok(()));
}

#[test]
fn registered_hash_is_default_cost_bcrypt() {
    let user = prepare_registration(RegisterRequest {
        email: "test@example.com".to_string(),
        password: "password123".to_string(),
    })
    .unwrap();
    assert!(user.password_hash.starts_with("$2b$12$"));
    assert_eq!(user.password_hash.len(), 60);
}
