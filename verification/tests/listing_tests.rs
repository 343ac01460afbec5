use sqlx::{Arguments, Execute};
use tasks_backend::error::AppError;
use tasks_backend::listing::{
    list_tasks_query, page_index, per_page_limit, plan_listing, sort_column, sort_order,
    ListParams, SortColumn, SortOrder,
};

const SUBJECT: &str = "67e55044-10b1-426f-9247-bb680e5fe0c8";

fn params(
    page: Option<i32>,
    per_page: Option<i32>,
    completed: Option<bool>,
    sort: Option<&str>,
    order: Option<&str>,
) -> ListParams {
    ListParams {
        page,
        per_page,
        completed,
        sort: sort.map(|s| s.to_string()),
        order: order.map(|s| s.to_string()),
    }
}

const SELECT: &str = "SELECT id, title, description, user_id, completed, created_at, updated_at
           FROM tasks
           WHERE user_id = ";

#[test]
fn page_size_defaults_and_cap() {
    assert_eq!(per_page_limit(None), 20);
    assert_eq!(per_page_limit(Some(2)), 2);
    assert_eq!(per_page_limit(Some(100)), 100);
    assert_eq!(per_page_limit(Some(101)), 100);
    assert_eq!(per_page_limit(Some(i32::MAX)), 100);
    assert_eq!(per_page_limit(Some(0)), 0);
    assert_eq!(per_page_limit(Some(-5)), -5);
}

#[test]
fn page_number_defaults_and_floor() {
    assert_eq!(page_index(None), 1);
    assert_eq!(page_index(Some(1)), 1);
    assert_eq!(page_index(Some(0)), 1);
    assert_eq!(page_index(Some(-3)), 1);
    assert_eq!(page_index(Some(7)), 7);
}

#[test]
fn offsets_of_pages() {
    let p = plan_listing(1, &params(Some(1), Some(2), None, None, None));
    assert_eq!((p.limit, p.offset), (2, 0));
    let p = plan_listing(1, &params(Some(3), Some(2), None, None, None));
    assert_eq!((p.limit, p.offset), (2, 4));
    let p = plan_listing(1, &params(None, None, None, None, None));
    assert_eq!((p.limit, p.offset), (20, 0));
    let p = plan_listing(1, &params(Some(4), Some(500), None, None, None));
    assert_eq!((p.limit, p.offset), (100, 300));
}

#[test]
fn next_page_follows_previous() {
    for page in 1..6 {
        let a = plan_listing(1, &params(Some(page), Some(7), None, None, None));
        let b = plan_listing(1, &params(Some(page + 1), Some(7), None, None, None));
        assert_eq!(b.offset, a.offset + a.limit);
    }
}

#[test]
fn extreme_pagination_does_not_overflow() {
    let p = plan_listing(1, &params(Some(i32::MAX), Some(i32::MIN), None, None, None));
    assert_eq!(p.limit, i32::MIN as i64);
    assert_eq!(p.offset, (i32::MAX as i64 - 1) * (i32::MIN as i64));
}

#[test]
fn sort_choices() {
    assert!(matches!(sort_column(&Some("title".to_string())), SortColumn::Title));
    assert!(matches!(sort_column(&Some("updated_at".to_string())), SortColumn::UpdatedAt));
    assert!(matches!(sort_column(&Some("created_at".to_string())), SortColumn::CreatedAt));
    assert!(matches!(sort_column(&Some("TITLE".to_string())), SortColumn::CreatedAt));
    assert!(matches!(sort_column(&Some("title; DROP TABLE tasks".to_string())), SortColumn::CreatedAt));
    assert!(matches!(sort_column(&None), SortColumn::CreatedAt));
    assert!(matches!(sort_order(&Some("asc".to_string())), SortOrder::Asc));
    assert!(matches!(sort_order(&Some("ASC".to_string())), SortOrder::Desc));
    assert!(matches!(sort_order(&Some("desc".to_string())), SortOrder::Desc));
    assert!(matches!(sort_order(&None), SortOrder::Desc));
}

#[test]
fn sql_names_of_choices() {
    assert_eq!(SortColumn::Title.sql_name(), "title");
    assert_eq!(SortColumn::UpdatedAt.sql_name(), "updated_at");
    assert_eq!(SortColumn::CreatedAt.sql_name(), "created_at");
    assert_eq!(SortOrder::Asc.sql_keyword(), "ASC");
    assert_eq!(SortOrder::Desc.sql_keyword(), "DESC");
}

#[test]
fn default_list_query() {
    let q = list_tasks_query(SUBJECT, &params(None, None, None, None, None)).unwrap();
    assert_eq!(
        q.builder.sql(),
        format!("{SELECT}$1 ORDER BY created_at DESC LIMIT $2 OFFSET $3")
    );
}

#[test]
fn filtered_list_query() {
    let q = list_tasks_query(
        SUBJECT,
        &params(Some(1), Some(2), Some(true), Some("title"), Some("asc")),
    )
    .unwrap();
    assert_eq!(
        q.builder.sql(),
        format!("{SELECT}$1 AND completed = $2 ORDER BY title ASC LIMIT $3 OFFSET $4")
    );
}

#[test]
fn unfiltered_sorted_list_query() {
    let q = list_tasks_query(
        SUBJECT,
        &params(Some(2), Some(2), None, Some("updated_at"), Some("desc")),
    )
    .unwrap();
    assert_eq!(
        q.builder.sql(),
        format!("{SELECT}$1 ORDER BY updated_at DESC LIMIT $2 OFFSET $3")
    );
}

#[test]
fn list_query_needs_valid_subject() {
    let r = list_tasks_query("nobody", &params(None, None, None, None, None));
    assert_eq!(r.err(), Some(AppError::Internal("Invalid user ID".to_string())));
}

fn bound_argument_count(q: &mut tasks_backend::query_builder::PgQuery) -> usize {
    let mut query = q.builder.build();
    query.take_arguments().unwrap().map(|a| a.len()).unwrap_or(0)
}

#[test]
fn list_query_binds_one_argument_per_placeholder() {
    let mut q = list_tasks_query(SUBJECT, &params(None, None, None, None, None)).unwrap();
    assert_eq!(bound_argument_count(&mut q), 3);
    let mut q =
        list_tasks_query(SUBJECT, &params(None, None, Some(false), None, None)).unwrap();
    assert_eq!(bound_argument_count(&mut q), 4);
}

#[test]
fn sort_text_must_match_exactly() {
    assert!(matches!(sort_column(&Some("titl".to_string())), SortColumn::CreatedAt));
    assert!(matches!(sort_column(&Some("titles".to_string())), SortColumn::CreatedAt));
    assert!(matches!(sort_column(&Some("".to_string())), SortColumn::CreatedAt));
    assert!(matches!(sort_order(&Some("as".to_string())), SortOrder::Desc));
    assert!(matches!(sort_order(&Some("asc ".to_string())), SortOrder::Desc));
}
