use crate::error::AppError;
use crate::identity::{parsed_uuid, user_id_from_subject};
use crate::text::{exceeds_char_count, fits_bind, lemma_utf8_len_bound, opt_fits_bind, trim, trimmed};
use vstd::prelude::*;

verus! {

/// The longest title, in characters, that a task may have.
pub const MAX_TITLE_CHARS: usize = 255;

/// The body of a request that creates a task.
pub struct CreateTaskRequest {
    pub title: String,
    pub description: Option<String>,
}

/// The body of a request that changes a task; absent fields stay as they are.
pub struct UpdateTaskRequest {
    pub title: Option<String>,
    pub description: Option<String>,
    pub completed: Option<bool>,
}

/// A task ready to be stored: its title trimmed and checked, its owner known.
pub struct NewTask {
    pub title: String,
    pub description: Option<String>,
    pub user_id: u128,
}

/// The changes to apply to one of a user's tasks; `None` keeps the stored value.
pub struct TaskChanges {
    pub user_id: u128,
    pub title: Option<String>,
    pub description: Option<String>,
    pub completed: Option<bool>,
}

/// A title is accepted when, trimmed, it holds between 1 and 255 characters.
pub open spec fn title_accepted(title: Seq<char>) -> bool {
    1 <= trimmed(title).len() <= MAX_TITLE_CHARS
}

/// The answer to a title that is not accepted.
pub open spec fn is_title_error(r: AppError) -> bool {
    r matches AppError::BadRequest(m) && m@ == "Title must be between 1 and 255 characters"@
}

/// The answer to a token subject that is not a UUID.
pub open spec fn is_user_id_error(r: AppError) -> bool {
    r matches AppError::Internal(m) && m@ == "Invalid user ID"@
}

/// Trims a title and checks its length: the trimmed title, or the error
/// that answers a title that is empty or longer than 255 characters once trimmed.
pub fn validate_title(title: &str) -> (r: Result<String, AppError>)
    ensures
        title_accepted(title@) ==> (r matches Ok(t) && t@ == trimmed(title@)),
        !title_accepted(title@) ==> (r matches Err(e) && is_title_error(e)),
        r matches Ok(t) ==> fits_bind(t@),
{
    let t = trim(title);
    proof {
        lemma_utf8_len_bound(t@);
    }
    if t.is_empty() || exceeds_char_count(t, MAX_TITLE_CHARS) {
        Err(AppError::BadRequest("Title must be between 1 and 255 characters".to_owned()))
    } else {
        Ok(t.to_owned())
    }
}

/// Checks a creation request of the user named by `subject`: the title is
/// checked first, the subject second.
pub fn prepare_new_task(subject: &str, request: CreateTaskRequest) -> (r: Result<NewTask, AppError>)
    ensures
        !title_accepted(request.title@) ==> (r matches Err(e) && is_title_error(e)),
        title_accepted(request.title@) && parsed_uuid(subject@) is None ==> (r matches Err(e)
            && is_user_id_error(e)),
        title_accepted(request.title@) && parsed_uuid(subject@) is Some ==> (r matches Ok(t)
            && t.title@ == trimmed(request.title@) && t.description == request.description
            && t.user_id == parsed_uuid(subject@)->0),
        r matches Ok(t) ==> fits_bind(t.title@),
{
    let title = validate_title(request.title.as_str())?;
    let user_id = user_id_from_subject(subject)?;
    Ok(NewTask { title, description: request.description, user_id })
}

/// Checks a change request of the user named by `subject`: the subject is
/// checked first, then the new title, if one is given, which is passed on trimmed.
pub fn prepare_task_changes(subject: &str, request: UpdateTaskRequest) -> (r: Result<
    TaskChanges,
    AppError,
>)
    ensures
        parsed_uuid(subject@) is None ==> (r matches Err(e) && is_user_id_error(e)),
        parsed_uuid(subject@) is Some && (request.title matches Some(t) && !title_accepted(t@))
            ==> (r matches Err(e) && is_title_error(e)),
        parsed_uuid(subject@) is Some && (request.title matches Some(t) ==> title_accepted(t@))
            ==> (r matches Ok(c) && c.user_id == parsed_uuid(subject@)->0 && c.description
            == request.description && c.completed == request.completed && (match request.title {
            Some(t) => (c.title matches Some(ct) && ct@ == trimmed(t@)),
            None => c.title is None,
        })),
        r matches Ok(c) ==> opt_fits_bind(c.title),
{
    let user_id = user_id_from_subject(subject)?;
    let title = match &request.title {
        Some(t) => Some(validate_title(t.as_str())?),
        None => None,
    };
    Ok(TaskChanges {
        user_id,
        title,
        description: request.description,
        completed: request.completed,
    })
}

/// The answer to a lookup of a task: the task if the store returned one,
/// otherwise the not-found error.
pub fn found_task<T>(row: Option<T>) -> (r: Result<T, AppError>)
    ensures
        match row {
            Some(t) => r == Ok::<T, AppError>(t),
            None => (r matches Err(AppError::NotFound(m)) && m@ == "Task not found"@),
        },
{
    match row {
        Some(t) => Ok(t),
        None => Err(AppError::NotFound("Task not found".to_owned())),
    }
}

/// The answer to a deletion that removed `rows_affected` rows: status 204 when
/// a task was removed, the not-found error when none was.
pub fn deletion_outcome(rows_affected: u64) -> (r: Result<u16, AppError>)
    ensures
        rows_affected > 0 ==> r == Ok::<u16, AppError>(204),
        rows_affected == 0 ==> (r matches Err(AppError::NotFound(m)) && m@ == "Task not found"@),
{
    if rows_affected == 0 {
        return Err(AppError::NotFound("Task not found".to_owned()));
    }
    Ok(204)
}

} // verus!
