use tasks_backend::auth::validate_registration;
use tasks_backend::error::AppError;
use tasks_backend::identity::{owner_id, user_id_from_subject};
use tasks_backend::tasks::{
    deletion_outcome, found_task, prepare_new_task, prepare_task_changes, validate_title,
    CreateTaskRequest, UpdateTaskRequest,
};
use tasks_backend::text::exceeds_char_count;

const SUBJECT: &str = "67e55044-10b1-426f-9247-bb680e5fe0c8";
const SUBJECT_ID: u128 = 0x67e55044_10b1_426f_9247_bb680e5fe0c8;

fn title_error() -> AppError {
    AppError::BadRequest("Title must be between 1 and 255 characters".to_string())
}

fn user_id_error() -> AppError {
    AppError::Internal("Invalid user ID".to_string())
}

#[test]
fn status_codes_of_errors() {
    assert_eq!(AppError::BadRequest("x".to_string()).status_code(), 400);
    assert_eq!(AppError::Unauthorized.status_code(), 401);
    assert_eq!(AppError::NotFound("x".to_string()).status_code(), 404);
    assert_eq!(AppError::Internal("x".to_string()).status_code(), 500);
}

#[test]
fn registration_rejects_email_without_at() {
    assert_eq!(
        validate_registration("invalid-email", "password123"),
        Err(AppError::BadRequest("Invalid email format".to_string()))
    );
}

#[test]
fn registration_rejects_empty_email() {
    assert_eq!(
        validate_registration("", "password123"),
        Err(AppError::BadRequest("Invalid email format".to_string()))
    );
}

#[test]
fn registration_checks_email_before_password() {
    assert_eq!(
        validate_registration("invalid-email", "short"),
        Err(AppError::BadRequest("Invalid email format".to_string()))
    );
}

#[test]
fn registration_rejects_short_password() {
    assert_eq!(
        validate_registration("test@example.com", "1234567"),
        Err(AppError::BadRequest("Password must be at least 8 characters long".to_string()))
    );
}

#[test]
fn registration_accepts_eight_byte_password() {
    assert_eq!(validate_registration("test@example.com", "12345678"), Ok(()));
    assert_eq!(validate_registration("test@example.com", "password123"), Ok(()));
}

#[test]
fn registration_counts_password_bytes() {
    // seven characters, eight bytes in UTF-8
    assert_eq!(validate_registration("test@example.com", "pässwd1"), Ok(()));
    // six characters, seven bytes
    assert!(validate_registration("test@example.com", "pässwd").is_err());
}

#[test]
fn subject_parses_to_user_id() {
    assert_eq!(user_id_from_subject(SUBJECT), Ok(SUBJECT_ID));
    assert_eq!(
        user_id_from_subject("67e5504410b1426f9247bb680e5fe0c8"),
        Ok(SUBJECT_ID)
    );
}

#[test]
fn subject_that_is_not_uuid_is_internal_error() {
    assert_eq!(user_id_from_subject("not-a-uuid"), Err(user_id_error()));
    assert_eq!(user_id_from_subject(""), Err(user_id_error()));
}

#[test]
fn owner_id_maps_parse_result() {
    assert_eq!(owner_id(Some(5)), Ok(5));
    assert_eq!(owner_id(None), Err(user_id_error()));
}

#[test]
fn title_is_trimmed() {
    assert_eq!(validate_title("  Test Task \n"), Ok("Test Task".to_string()));
    assert_eq!(validate_title("\u{3000}Task\u{a0}"), Ok("Task".to_string()));
    assert_eq!(validate_title("Updated title"), Ok("Updated title".to_string()));
}

#[test]
fn title_trimming_follows_unicode_white_space() {
    assert_eq!(validate_title("\u{85}\u{2009}Task\u{202f}"), Ok("Task".to_string()));
    // a zero-width space is not white space, so it stays
    assert_eq!(validate_title("\u{200b}Task"), Ok("\u{200b}Task".to_string()));
    assert_eq!(validate_title(" a b "), Ok("a b".to_string()));
}

#[test]
fn blank_title_is_rejected() {
    assert_eq!(validate_title(""), Err(title_error()));
    assert_eq!(validate_title("   \t  "), Err(title_error()));
}

#[test]
fn title_length_limit_counts_characters() {
    let max = "a".repeat(255);
    assert_eq!(validate_title(&max), Ok(max.clone()));
    let too_long = "a".repeat(256);
    assert_eq!(validate_title(&too_long), Err(title_error()));
    let wide = "é".repeat(255);
    assert_eq!(validate_title(&wide), Ok(wide.clone()));
    let padded = format!("  {}  ", "b".repeat(255));
    assert_eq!(validate_title(&padded), Ok("b".repeat(255)));
}

#[test]
fn char_count_threshold() {
    assert!(!exceeds_char_count("abc", 3));
    assert!(exceeds_char_count("abcd", 3));
    assert!(!exceeds_char_count("", 0));
    assert!(exceeds_char_count("é", 0));
}

#[test]
fn new_task_is_prepared() {
    let task = prepare_new_task(
        SUBJECT,
        CreateTaskRequest {
            title: " Test Task ".to_string(),
            description: Some("This is a test task.".to_string()),
        },
    )
    .unwrap();
    assert_eq!(task.title, "Test Task");
    assert_eq!(task.description, Some("This is a test task.".to_string()));
    assert_eq!(task.user_id, SUBJECT_ID);
}

#[test]
fn new_task_checks_title_before_subject() {
    let r = prepare_new_task(
        "bad",
        CreateTaskRequest { title: "  ".to_string(), description: None },
    );
    assert_eq!(r.err(), Some(title_error()));
    let r = prepare_new_task(
        "bad",
        CreateTaskRequest { title: "Fine".to_string(), description: None },
    );
    assert_eq!(r.err(), Some(user_id_error()));
}

#[test]
fn task_changes_are_prepared() {
    let changes = prepare_task_changes(
        SUBJECT,
        UpdateTaskRequest {
            title: Some("  Updated title ".to_string()),
            description: None,
            completed: Some(true),
        },
    )
    .unwrap();
    assert_eq!(changes.user_id, SUBJECT_ID);
    assert_eq!(changes.title, Some("Updated title".to_string()));
    assert_eq!(changes.description, None);
    assert_eq!(changes.completed, Some(true));
}

#[test]
fn task_changes_without_title() {
    let changes = prepare_task_changes(
        SUBJECT,
        UpdateTaskRequest { title: None, description: Some("d".to_string()), completed: None },
    )
    .unwrap();
    assert_eq!(changes.title, None);
    assert_eq!(changes.description, Some("d".to_string()));
}

#[test]
fn task_changes_check_subject_before_title() {
    let r = prepare_task_changes(
        "bad",
        UpdateTaskRequest { title: Some("".to_string()), description: None, completed: None },
    );
    assert_eq!(r.err(), Some(user_id_error()));
    let r = prepare_task_changes(
        SUBJECT,
        UpdateTaskRequest { title: Some(" ".to_string()), description: None, completed: None },
    );
    assert_eq!(r.err(), Some(title_error()));
}

#[test]
fn missing_task_is_not_found() {
    assert_eq!(found_task(Some(3u8)), Ok(3u8));
    assert_eq!(
        found_task::<u8>(None),
        Err(AppError::NotFound("Task not found".to_string()))
    );
}

#[test]
fn deletion_outcomes() {
    assert_eq!(deletion_outcome(1), Ok(204));
    assert_eq!(deletion_outcome(2), Ok(204));
    assert_eq!(
        deletion_outcome(0),
        Err(AppError::NotFound("Task not found".to_string()))
    );
}
