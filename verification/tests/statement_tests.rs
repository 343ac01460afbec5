use sqlx::{Arguments, Execute};
use tasks_backend::auth::NewUser;
use tasks_backend::statements::{
    delete_task_query, find_user_query, get_task_query, insert_task_query, insert_user_query,
    stats_query, update_task_query,
};
use tasks_backend::tasks::{NewTask, TaskChanges};

#[test]
fn user_statements() {
    let user = NewUser { email: "a@b.c".to_string(), password_hash: "h".to_string() };
    assert_eq!(
        insert_user_query(&user).builder.sql(),
        "INSERT INTO users (email, password_hash)
           VALUES ($1, $2)
           RETURNING id, email, password_hash"
    );
    assert_eq!(
        find_user_query("a@b.c").builder.sql(),
        "SELECT id, email, password_hash
           FROM users
           WHERE email = $1"
    );
}

#[test]
fn task_insert_statement() {
    let task = NewTask { title: "T".to_string(), description: None, user_id: 9 };
    assert_eq!(
        insert_task_query(task).builder.sql(),
        "INSERT INTO tasks (title, description, user_id)
           VALUES ($1, $2, $3)
           RETURNING id, title, description, user_id, completed, created_at, updated_at"
    );
}

#[test]
fn single_task_statements_name_owner() {
    assert_eq!(
        get_task_query(1, 2).builder.sql(),
        "SELECT id, title, description, user_id, completed, created_at, updated_at
           FROM tasks
           WHERE id = $1 AND user_id = $2"
    );
    assert_eq!(
        delete_task_query(1, 2).builder.sql(),
        "DELETE FROM tasks
           WHERE id = $1 AND user_id = $2"
    );
    let changes = TaskChanges {
        user_id: 2,
        title: Some("x".to_string()),
        description: None,
        completed: Some(true),
    };
    assert_eq!(
        update_task_query(1, changes).builder.sql(),
        "UPDATE tasks
           SET title = COALESCE($1, title),
               description = COALESCE($2, description),
               completed = COALESCE($3, completed),
               updated_at = NOW()
           WHERE id = $4 AND user_id = $5
           RETURNING id, title, description, user_id, completed, created_at, updated_at"
    );
}

#[test]
fn stats_statement() {
    assert_eq!(
        stats_query(3).builder.sql(),
        r#"SELECT
            COUNT(*) AS "total!",
            COUNT(*) FILTER (WHERE completed) AS "completed!",
            COUNT(*) FILTER (WHERE NOT completed) AS "pending!"
           FROM tasks
           WHERE user_id = $1"#
    );
}

fn bound_argument_count(q: &mut tasks_backend::query_builder::PgQuery) -> usize {
    let mut query = q.builder.build();
    query.take_arguments().unwrap().map(|a| a.len()).unwrap_or(0)
}

#[test]
fn statements_bind_their_arguments() {
    assert_eq!(bound_argument_count(&mut get_task_query(1, 2)), 2);
    assert_eq!(bound_argument_count(&mut delete_task_query(1, 2)), 2);
    assert_eq!(bound_argument_count(&mut stats_query(2)), 1);
    assert_eq!(bound_argument_count(&mut find_user_query("a@b.c")), 1);
    let changes = TaskChanges { user_id: 2, title: None, description: None, completed: None };
    assert_eq!(bound_argument_count(&mut update_task_query(1, changes)), 5);
    let task = NewTask { title: "T".to_string(), description: Some("d".to_string()), user_id: 9 };
    assert_eq!(bound_argument_count(&mut insert_task_query(task)), 3);
}
