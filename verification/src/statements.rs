use crate::auth::NewUser;
use crate::query_builder::{
    new_query, opt_text, placeholder, push_bind_opt_bool, push_bind_opt_text, push_bind_text,
    push_bind_uuid, push_sql, query_args, query_sql, PgQuery, SqlArg,
};
use crate::tasks::{NewTask, TaskChanges};
use crate::text::{fits_bind, opt_fits_bind};
use vstd::prelude::*;

verus! {

pub const USER_INSERT_HEAD: &'static str = "INSERT INTO users (email, password_hash)
           VALUES (";

pub const USER_INSERT_TAIL: &'static str = ")
           RETURNING id, email, password_hash";

pub const USER_LOOKUP_HEAD: &'static str = "SELECT id, email, password_hash
           FROM users
           WHERE email = ";

pub const TASK_INSERT_HEAD: &'static str = "INSERT INTO tasks (title, description, user_id)
           VALUES (";

pub const TASK_INSERT_TAIL: &'static str = ")
           RETURNING id, title, description, user_id, completed, created_at, updated_at";

pub const TASK_LOOKUP_HEAD: &'static str = "SELECT id, title, description, user_id, completed, created_at, updated_at
           FROM tasks
           WHERE id = ";

/// The condition that confines a statement to the rows of one owner, before
/// the owner's placeholder.
pub const OWNER_FILTER: &'static str = "user_id = ";

/// The conjunction of two conditions.
pub const AND: &'static str = " AND ";

pub const TASK_UPDATE_HEAD: &'static str = "UPDATE tasks
           SET title = COALESCE(";

pub const TASK_UPDATE_DESCRIPTION: &'static str = ", title),
               description = COALESCE(";

pub const TASK_UPDATE_COMPLETED: &'static str = ", description),
               completed = COALESCE(";

pub const TASK_UPDATE_WHERE: &'static str = ", completed),
               updated_at = NOW()
           WHERE id = ";

pub const TASK_UPDATE_RETURNING: &'static str = "
           RETURNING id, title, description, user_id, completed, created_at, updated_at";

pub const TASK_DELETE_HEAD: &'static str = "DELETE FROM tasks
           WHERE id = ";

pub const STATS_HEAD: &'static str = "SELECT
            COUNT(*) AS \"total!\",
            COUNT(*) FILTER (WHERE completed) AS \"completed!\",
            COUNT(*) FILTER (WHERE NOT completed) AS \"pending!\"
           FROM tasks
           WHERE ";

/// The statement that stores a new account.
pub open spec fn user_insert_sql() -> Seq<char> {
    USER_INSERT_HEAD@ + placeholder(1) + ", "@ + placeholder(2) + USER_INSERT_TAIL@
}

/// The statement that finds the account with an email.
pub open spec fn user_lookup_sql() -> Seq<char> {
    USER_LOOKUP_HEAD@ + placeholder(1)
}

/// The statement that stores a new task.
pub open spec fn task_insert_sql() -> Seq<char> {
    TASK_INSERT_HEAD@ + placeholder(1) + ", "@ + placeholder(2) + ", "@ + placeholder(3)
        + TASK_INSERT_TAIL@
}

/// The statement that reads one task of one owner.
pub open spec fn task_lookup_sql() -> Seq<char> {
    TASK_LOOKUP_HEAD@ + placeholder(1) + AND@ + OWNER_FILTER@ + placeholder(2)
}

/// The statement that changes one task of one owner, keeping each field
/// whose new value is NULL.
pub open spec fn task_update_sql() -> Seq<char> {
    TASK_UPDATE_HEAD@ + placeholder(1) + TASK_UPDATE_DESCRIPTION@ + placeholder(2)
        + TASK_UPDATE_COMPLETED@ + placeholder(3) + TASK_UPDATE_WHERE@ + placeholder(4)
        + AND@ + OWNER_FILTER@ + placeholder(5) + TASK_UPDATE_RETURNING@
}

/// The statement that deletes one task of one owner.
pub open spec fn task_delete_sql() -> Seq<char> {
    TASK_DELETE_HEAD@ + placeholder(1) + AND@ + OWNER_FILTER@ + placeholder(2)
}

/// The statement that counts an owner's tasks, all, completed and pending.
pub open spec fn stats_sql() -> Seq<char> {
    STATS_HEAD@ + OWNER_FILTER@ + placeholder(1)
}

/// The arguments of the statement that reads or deletes task `task_id` of user `user_id`.
pub open spec fn task_key_args(task_id: u128, user_id: u128) -> Seq<SqlArg> {
    seq![SqlArg::Uuid(task_id), SqlArg::Uuid(user_id)]
}

/// The arguments of the statement that applies `changes` to task `task_id`.
pub open spec fn task_update_args(task_id: u128, changes: TaskChanges) -> Seq<SqlArg> {
    seq![
        SqlArg::OptText(opt_text(changes.title)),
        SqlArg::OptText(opt_text(changes.description)),
        SqlArg::OptBool(changes.completed),
        SqlArg::Uuid(task_id),
        SqlArg::Uuid(changes.user_id),
    ]
}

/// The arguments of the statement that counts the tasks of user `user_id`.
pub open spec fn stats_args(user_id: u128) -> Seq<SqlArg> {
    seq![SqlArg::Uuid(user_id)]
}

/// The statement that stores a new account.
pub fn insert_user_query(user: &NewUser) -> (q: PgQuery)
    requires
        fits_bind(user.email@),
        fits_bind(user.password_hash@),
    ensures
        query_sql(q) == user_insert_sql(),
        query_args(q) == seq![SqlArg::Text(user.email@), SqlArg::Text(user.password_hash@)],
{
    let mut q = new_query(USER_INSERT_HEAD);
    push_bind_text(&mut q, user.email.as_str());
    push_sql(&mut q, ", ");
    push_bind_text(&mut q, user.password_hash.as_str());
    push_sql(&mut q, USER_INSERT_TAIL);
    q
}

/// The statement that finds the account with `email`.
pub fn find_user_query(email: &str) -> (q: PgQuery)
    requires
        fits_bind(email@),
    ensures
        query_sql(q) == user_lookup_sql(),
        query_args(q) == seq![SqlArg::Text(email@)],
{
    let mut q = new_query(USER_LOOKUP_HEAD);
    push_bind_text(&mut q, email);
    q
}

/// The statement that stores a new task.
pub fn insert_task_query(task: NewTask) -> (q: PgQuery)
    requires
        fits_bind(task.title@),
        opt_fits_bind(task.description),
    ensures
        query_sql(q) == task_insert_sql(),
        query_args(q) == seq![
            SqlArg::Text(task.title@),
            SqlArg::OptText(opt_text(task.description)),
            SqlArg::Uuid(task.user_id),
        ],
{
    let mut q = new_query(TASK_INSERT_HEAD);
    push_bind_text(&mut q, task.title.as_str());
    push_sql(&mut q, ", ");
    push_bind_opt_text(&mut q, task.description);
    push_sql(&mut q, ", ");
    push_bind_uuid(&mut q, task.user_id);
    push_sql(&mut q, TASK_INSERT_TAIL);
    q
}

/// The statement that reads task `task_id` of user `user_id`.
pub fn get_task_query(task_id: u128, user_id: u128) -> (q: PgQuery)
    ensures
        query_sql(q) == task_lookup_sql(),
        query_args(q) == task_key_args(task_id, user_id),
{
    let mut q = new_query(TASK_LOOKUP_HEAD);
    push_bind_uuid(&mut q, task_id);
    push_sql(&mut q, AND);
    push_sql(&mut q, OWNER_FILTER);
    push_bind_uuid(&mut q, user_id);
    q
}

/// The statement that applies `changes` to task `task_id` of their user.
pub fn update_task_query(task_id: u128, changes: TaskChanges) -> (q: PgQuery)
    requires
        opt_fits_bind(changes.title),
        opt_fits_bind(changes.description),
    ensures
        query_sql(q) == task_update_sql(),
        query_args(q) == task_update_args(task_id, changes),
{
    let mut q = new_query(TASK_UPDATE_HEAD);
    push_bind_opt_text(&mut q, changes.title);
    push_sql(&mut q, TASK_UPDATE_DESCRIPTION);
    push_bind_opt_text(&mut q, changes.description);
    push_sql(&mut q, TASK_UPDATE_COMPLETED);
    push_bind_opt_bool(&mut q, changes.completed);
    push_sql(&mut q, TASK_UPDATE_WHERE);
    push_bind_uuid(&mut q, task_id);
    push_sql(&mut q, AND);
    push_sql(&mut q, OWNER_FILTER);
    push_bind_uuid(&mut q, changes.user_id);
    push_sql(&mut q, TASK_UPDATE_RETURNING);
    q
}

/// The statement that deletes task `task_id` of user `user_id`.
pub fn delete_task_query(task_id: u128, user_id: u128) -> (q: PgQuery)
    ensures
        query_sql(q) == task_delete_sql(),
        query_args(q) == task_key_args(task_id, user_id),
{
    let mut q = new_query(TASK_DELETE_HEAD);
    push_bind_uuid(&mut q, task_id);
    push_sql(&mut q, AND);
    push_sql(&mut q, OWNER_FILTER);
    push_bind_uuid(&mut q, user_id);
    q
}

/// The statement that counts the tasks of user `user_id`.
pub fn stats_query(user_id: u128) -> (q: PgQuery)
    ensures
        query_sql(q) == stats_sql(),
        query_args(q) == stats_args(user_id),
{
    let mut q = new_query(STATS_HEAD);
    push_sql(&mut q, OWNER_FILTER);
    push_bind_uuid(&mut q, user_id);
    q
}

/// The placeholders of the first five arguments, spelled out.
pub proof fn lemma_small_placeholders()
    ensures
        placeholder(1) == seq!['$', '1'],
        placeholder(2) == seq!['$', '2'],
        placeholder(3) == seq!['$', '3'],
        placeholder(4) == seq!['$', '4'],
        placeholder(5) == seq!['$', '5'],
{
    assert(placeholder(1) =~= seq!['$', '1']);
    assert(placeholder(2) =~= seq!['$', '2']);
    assert(placeholder(3) =~= seq!['$', '3']);
    assert(placeholder(4) =~= seq!['$', '4']);
    assert(placeholder(5) =~= seq!['$', '5']);
}

/// The statement that stores an account, in full.
pub proof fn lemma_user_insert_text()
    ensures
        user_insert_sql() == "INSERT INTO users (email, password_hash)
           VALUES ($1, $2)
           RETURNING id, email, password_hash"@,
{
    reveal_strlit("INSERT INTO users (email, password_hash)
           VALUES (");
    reveal_strlit(", ");
    reveal_strlit(")
           RETURNING id, email, password_hash");
    reveal_strlit("INSERT INTO users (email, password_hash)
           VALUES ($1, $2)
           RETURNING id, email, password_hash");
    lemma_small_placeholders();
    assert(user_insert_sql() =~= "INSERT INTO users (email, password_hash)
           VALUES ($1, $2)
           RETURNING id, email, password_hash"@);
}

/// The statement that finds an account, in full.
pub proof fn lemma_user_lookup_text()
    ensures
        user_lookup_sql() == "SELECT id, email, password_hash
           FROM users
           WHERE email = $1"@,
{
    reveal_strlit("SELECT id, email, password_hash
           FROM users
           WHERE email = ");
    reveal_strlit("SELECT id, email, password_hash
           FROM users
           WHERE email = $1");
    lemma_small_placeholders();
    assert(user_lookup_sql() =~= "SELECT id, email, password_hash
           FROM users
           WHERE email = $1"@);
}

/// The statement that stores a task, in full.
pub proof fn lemma_task_insert_text()
    ensures
        task_insert_sql() == "INSERT INTO tasks (title, description, user_id)
           VALUES ($1, $2, $3)
           RETURNING id, title, description, user_id, completed, created_at, updated_at"@,
{
    reveal_strlit("INSERT INTO tasks (title, description, user_id)
           VALUES (");
    reveal_strlit(", ");
    reveal_strlit(")
           RETURNING id, title, description, user_id, completed, created_at, updated_at");
    reveal_strlit("INSERT INTO tasks (title, description, user_id)
           VALUES ($1, $2, $3)
           RETURNING id, title, description, user_id, completed, created_at, updated_at");
    lemma_small_placeholders();
    assert(task_insert_sql() =~= "INSERT INTO tasks (title, description, user_id)
           VALUES ($1, $2, $3)
           RETURNING id, title, description, user_id, completed, created_at, updated_at"@);
}

/// The statement that reads a task, in full.
pub proof fn lemma_task_lookup_text()
    ensures
        task_lookup_sql() == "SELECT id, title, description, user_id, completed, created_at, updated_at
           FROM tasks
           WHERE id = $1 AND user_id = $2"@,
{
    reveal_strlit("SELECT id, title, description, user_id, completed, created_at, updated_at
           FROM tasks
           WHERE id = ");
    reveal_strlit(" AND ");
    reveal_strlit("user_id = ");
    reveal_strlit("SELECT id, title, description, user_id, completed, created_at, updated_at
           FROM tasks
           WHERE id = $1 AND user_id = $2");
    lemma_small_placeholders();
    assert(task_lookup_sql() =~= "SELECT id, title, description, user_id, completed, created_at, updated_at
           FROM tasks
           WHERE id = $1 AND user_id = $2"@);
}

/// The statement that changes a task, in full.
pub proof fn lemma_task_update_text()
    ensures
        task_update_sql() == "UPDATE tasks
           SET title = COALESCE($1, title),
               description = COALESCE($2, description),
               completed = COALESCE($3, completed),
               updated_at = NOW()
           WHERE id = $4 AND user_id = $5
           RETURNING id, title, description, user_id, completed, created_at, updated_at"@,
{
    reveal_strlit("UPDATE tasks
           SET title = COALESCE(");
    reveal_strlit(", title),
               description = COALESCE(");
    reveal_strlit(", description),
               completed = COALESCE(");
    reveal_strlit(", completed),
               updated_at = NOW()
           WHERE id = ");
    reveal_strlit(" AND ");
    reveal_strlit("user_id = ");
    reveal_strlit("
           RETURNING id, title, description, user_id, completed, created_at, updated_at");
    reveal_strlit("UPDATE tasks
           SET title = COALESCE($1, title),
               description = COALESCE($2, description),
               completed = COALESCE($3, completed),
               updated_at = NOW()
           WHERE id = $4 AND user_id = $5
           RETURNING id, title, description, user_id, completed, created_at, updated_at");
    lemma_small_placeholders();
    assert(task_update_sql() =~= "UPDATE tasks
           SET title = COALESCE($1, title),
               description = COALESCE($2, description),
               completed = COALESCE($3, completed),
               updated_at = NOW()
           WHERE id = $4 AND user_id = $5
           RETURNING id, title, description, user_id, completed, created_at, updated_at"@);
}

/// The statement that deletes a task, in full.
pub proof fn lemma_task_delete_text()
    ensures
        task_delete_sql() == "DELETE FROM tasks
           WHERE id = $1 AND user_id = $2"@,
{
    reveal_strlit("DELETE FROM tasks
           WHERE id = ");
    reveal_strlit(" AND ");
    reveal_strlit("user_id = ");
    reveal_strlit("DELETE FROM tasks
           WHERE id = $1 AND user_id = $2");
    lemma_small_placeholders();
    assert(task_delete_sql() =~= "DELETE FROM tasks
           WHERE id = $1 AND user_id = $2"@);
}

/// The statement that counts tasks, in full.
pub proof fn lemma_stats_text()
    ensures
        stats_sql() == "SELECT
            COUNT(*) AS \"total!\",
            COUNT(*) FILTER (WHERE completed) AS \"completed!\",
            COUNT(*) FILTER (WHERE NOT completed) AS \"pending!\"
           FROM tasks
           WHERE user_id = $1"@,
{
    reveal_strlit("SELECT
            COUNT(*) AS \"total!\",
            COUNT(*) FILTER (WHERE completed) AS \"completed!\",
            COUNT(*) FILTER (WHERE NOT completed) AS \"pending!\"
           FROM tasks
           WHERE ");
    reveal_strlit("user_id = ");
    reveal_strlit("SELECT
            COUNT(*) AS \"total!\",
            COUNT(*) FILTER (WHERE completed) AS \"completed!\",
            COUNT(*) FILTER (WHERE NOT completed) AS \"pending!\"
           FROM tasks
           WHERE user_id = $1");
    lemma_small_placeholders();
    assert(stats_sql() =~= "SELECT
            COUNT(*) AS \"total!\",
            COUNT(*) FILTER (WHERE completed) AS \"completed!\",
            COUNT(*) FILTER (WHERE NOT completed) AS \"pending!\"
           FROM tasks
           WHERE user_id = $1"@);
}

} // verus!
