use crate::error::AppError;
use crate::identity::{parsed_uuid, user_id_from_subject};
use crate::query_builder::{
    new_query, placeholder, push_bind_bool, push_bind_i64, push_bind_uuid, push_sql, query_args,
    query_sql, PgQuery, SqlArg,
};
use crate::statements::{lemma_small_placeholders, OWNER_FILTER};
use vstd::prelude::*;

verus! {

/// The page size when none is asked for.
pub const DEFAULT_PER_PAGE: i32 = 20;

/// The largest page size.
pub const MAX_PER_PAGE: i32 = 100;

/// The start of the query that lists a user's tasks, up to its conditions.
pub const LIST_SELECT: &'static str = "SELECT id, title, description, user_id, completed, created_at, updated_at
           FROM tasks
           WHERE ";

/// The query string of a list request.
pub struct ListParams {
    pub page: Option<i32>,
    pub per_page: Option<i32>,
    pub completed: Option<bool>,
    pub sort: Option<String>,
    pub order: Option<String>,
}

/// The column by which tasks are listed.
pub enum SortColumn {
    Title,
    UpdatedAt,
    CreatedAt,
}

/// The direction in which tasks are listed.
pub enum SortOrder {
    Asc,
    Desc,
}

/// What a list request asks for, with defaults and bounds applied.
pub struct ListPlan {
    pub user_id: u128,
    pub completed: Option<bool>,
    pub column: SortColumn,
    pub order: SortOrder,
    pub limit: i64,
    pub offset: i64,
}

/// The column a `sort` parameter selects: `title` and `updated_at` select
/// themselves, anything else, or nothing, selects `created_at`.
pub open spec fn sort_column_for(sort: Option<Seq<char>>) -> SortColumn {
    if sort == Some("title"@) {
        SortColumn::Title
    } else if sort == Some("updated_at"@) {
        SortColumn::UpdatedAt
    } else {
        SortColumn::CreatedAt
    }
}

/// The direction an `order` parameter selects: `asc` is ascending, anything
/// else, or nothing, is descending.
pub open spec fn sort_order_for(order: Option<Seq<char>>) -> SortOrder {
    if order == Some("asc"@) {
        SortOrder::Asc
    } else {
        SortOrder::Desc
    }
}

/// The name of a column in SQL.
pub open spec fn column_name(c: SortColumn) -> Seq<char> {
    match c {
        SortColumn::Title => "title"@,
        SortColumn::UpdatedAt => "updated_at"@,
        SortColumn::CreatedAt => "created_at"@,
    }
}

/// The keyword of a direction in SQL.
pub open spec fn order_keyword(o: SortOrder) -> Seq<char> {
    match o {
        SortOrder::Asc => "ASC"@,
        SortOrder::Desc => "DESC"@,
    }
}

/// The view of an optional text parameter.
pub open spec fn text_param(p: Option<String>) -> Option<Seq<char>> {
    match p {
        Some(s) => Some(s@),
        None => None,
    }
}

/// The page size: the one asked for (20 if none), at most 100.
pub open spec fn page_size(per_page: Option<i32>) -> int {
    let p: int = match per_page {
        Some(v) => v as int,
        None => DEFAULT_PER_PAGE as int,
    };
    if p < MAX_PER_PAGE {
        p
    } else {
        MAX_PER_PAGE as int
    }
}

/// The page number: the one asked for (1 if none), at least 1.
pub open spec fn page_number(page: Option<i32>) -> int {
    let p: int = match page {
        Some(v) => v as int,
        None => 1,
    };
    if p > 1 {
        p
    } else {
        1
    }
}

/// The number of tasks that come before the page asked for.
pub open spec fn page_offset(page: Option<i32>, per_page: Option<i32>) -> int {
    (page_number(page) - 1) * page_size(per_page)
}

/// The plan of a list request by the user `user_id`.
pub open spec fn list_plan(user_id: u128, params: ListParams) -> ListPlan {
    ListPlan {
        user_id,
        completed: params.completed,
        column: sort_column_for(text_param(params.sort)),
        order: sort_order_for(text_param(params.order)),
        limit: page_size(params.per_page) as i64,
        offset: page_offset(params.page, params.per_page) as i64,
    }
}

/// The SQL text that lists tasks: filtered by owner and, when asked, by
/// completion, ordered by the chosen column, one page of them.
pub open spec fn list_sql(filtered: bool, column: SortColumn, order: SortOrder) -> Seq<char> {
    let n: nat = if filtered {
        3
    } else {
        2
    };
    LIST_SELECT@ + OWNER_FILTER@ + placeholder(1) + (if filtered {
        " AND completed = "@ + placeholder(2)
    } else {
        Seq::<char>::empty()
    }) + " ORDER BY "@ + column_name(column) + " "@ + order_keyword(order) + " LIMIT "@
        + placeholder(n) + " OFFSET "@ + placeholder(n + 1)
}

/// The arguments bound to the list query of a plan, in placeholder order.
pub open spec fn list_args(plan: ListPlan) -> Seq<SqlArg> {
    seq![SqlArg::Uuid(plan.user_id)] + (match plan.completed {
        Some(c) => seq![SqlArg::Bool(c)],
        None => Seq::<SqlArg>::empty(),
    }) + seq![SqlArg::BigInt(plan.limit), SqlArg::BigInt(plan.offset)]
}

/// Whether two texts are equal, compared character by character.
fn same_text(a: &str, b: &str) -> (r: bool)
    ensures
        r == (a@ == b@),
{
    let mut rest_b = b.chars();
    for ca in it: a.chars()
        invariant
            it.seq() == a@,
            vstd::std_specs::iter::IteratorSpec::obeys_prophetic_iter_laws(&rest_b),
            vstd::std_specs::iter::IteratorSpec::remaining(&rest_b) == b@.skip(it.index() as int),
            it.index() <= b@.len(),
            a@.take(it.index() as int) == b@.take(it.index() as int),
    {
        let ghost i = it.index() as int;
        match rest_b.next() {
            Some(cb) => {
                if ca != cb {
                    assert(a@[i] != b@[i]);
                    return false;
                }
                assert(a@.take(i + 1) =~= a@.take(i).push(a@[i]));
                assert(b@.take(i + 1) =~= b@.take(i).push(b@[i]));
                assert(b@.skip(i).drop_first() =~= b@.skip(i + 1));
            },
            None => {
                assert(a@.len() > b@.len());
                return false;
            },
        }
    }
    match rest_b.next() {
        Some(_) => {
            assert(b@.len() > a@.len());
            false
        },
        None => {
            assert(a@ =~= a@.take(a@.len() as int));
            assert(b@ =~= b@.take(b@.len() as int));
            true
        },
    }
}

/// The column a `sort` parameter selects.
pub fn sort_column(sort: &Option<String>) -> (c: SortColumn)
    ensures
        c == sort_column_for(text_param(*sort)),
{
    match sort {
        Some(s) => {
            if same_text(s.as_str(), "title") {
                SortColumn::Title
            } else if same_text(s.as_str(), "updated_at") {
                SortColumn::UpdatedAt
            } else {
                SortColumn::CreatedAt
            }
        },
        None => SortColumn::CreatedAt,
    }
}

/// The direction an `order` parameter selects.
pub fn sort_order(order: &Option<String>) -> (o: SortOrder)
    ensures
        o == sort_order_for(text_param(*order)),
{
    match order {
        Some(s) => {
            if same_text(s.as_str(), "asc") {
                SortOrder::Asc
            } else {
                SortOrder::Desc
            }
        },
        None => SortOrder::Desc,
    }
}

impl SortColumn {
    /// The column's name in SQL.
    pub fn sql_name(&self) -> (r: &'static str)
        ensures
            r@ == column_name(*self),
    {
        match self {
            SortColumn::Title => "title",
            SortColumn::UpdatedAt => "updated_at",
            SortColumn::CreatedAt => "created_at",
        }
    }
}

impl SortOrder {
    /// The direction's keyword in SQL.
    pub fn sql_keyword(&self) -> (r: &'static str)
        ensures
            r@ == order_keyword(*self),
    {
        match self {
            SortOrder::Asc => "ASC",
            SortOrder::Desc => "DESC",
        }
    }
}

/// The page size of a list request: 20 when none is given, capped at 100.
pub fn per_page_limit(per_page: Option<i32>) -> (r: i64)
    ensures
        r == page_size(per_page),
{
    let p = per_page.unwrap_or(DEFAULT_PER_PAGE);
    let capped = if p < MAX_PER_PAGE {
        p
    } else {
        MAX_PER_PAGE
    };
    capped as i64
}

/// The page number of a list request: 1 when none is given, at least 1.
pub fn page_index(page: Option<i32>) -> (r: i64)
    ensures
        r == page_number(page),
{
    let p = page.unwrap_or(1);
    let floored = if p > 1 {
        p
    } else {
        1
    };
    floored as i64
}

/// The plan of a list request by the user `user_id`.
pub fn plan_listing(user_id: u128, params: &ListParams) -> (plan: ListPlan)
    ensures
        plan == list_plan(user_id, *params),
{
    let limit = per_page_limit(params.per_page);
    let page = page_index(params.page);
    assert((page - 1) * limit <= i32::MAX * 100) by (nonlinear_arith)
        requires
            1 <= page <= i32::MAX,
            i32::MIN <= limit <= 100,
            0 <= page - 1,
    ;
    assert((page - 1) * limit >= (i32::MAX as int) * (i32::MIN as int)) by (nonlinear_arith)
        requires
            1 <= page <= i32::MAX,
            i32::MIN <= limit <= 100,
    ;
    let offset = (page - 1) * limit;
    ListPlan {
        user_id,
        completed: params.completed,
        column: sort_column(&params.sort),
        order: sort_order(&params.order),
        limit,
        offset,
    }
}

/// The query that lists the tasks of a plan.
pub fn list_query(plan: &ListPlan) -> (q: PgQuery)
    ensures
        query_sql(q) == list_sql(plan.completed is Some, plan.column, plan.order),
        query_args(q) == list_args(*plan),
{
    let mut q = new_query(LIST_SELECT);
    push_sql(&mut q, OWNER_FILTER);
    push_bind_uuid(&mut q, plan.user_id);
    if let Some(completed) = plan.completed {
        push_sql(&mut q, " AND completed = ");
        push_bind_bool(&mut q, completed);
    }
    push_sql(&mut q, " ORDER BY ");
    push_sql(&mut q, plan.column.sql_name());
    push_sql(&mut q, " ");
    push_sql(&mut q, plan.order.sql_keyword());
    push_sql(&mut q, " LIMIT ");
    push_bind_i64(&mut q, plan.limit);
    push_sql(&mut q, " OFFSET ");
    push_bind_i64(&mut q, plan.offset);
    q
}

/// The query that lists the tasks of the user named by `subject`, as the
/// request's parameters ask.
pub fn list_tasks_query(subject: &str, params: &ListParams) -> (r: Result<PgQuery, AppError>)
    ensures
        parsed_uuid(subject@) is None ==> (r matches Err(AppError::Internal(m)) && m@
            == "Invalid user ID"@),
        parsed_uuid(subject@) is Some ==> (r matches Ok(q) && query_sql(q) == list_sql(
            params.completed is Some,
            sort_column_for(text_param(params.sort)),
            sort_order_for(text_param(params.order)),
        ) && query_args(q) == list_args(list_plan(parsed_uuid(subject@)->0, *params))),
{
    let user_id = user_id_from_subject(subject)?;
    let plan = plan_listing(user_id, params);
    Ok(list_query(&plan))
}

/// The page size is 20 when none is asked for and never more than 100; a
/// size asked for up to 100 is kept.
pub proof fn lemma_page_size(per_page: Option<i32>)
    ensures
        page_size(per_page) <= MAX_PER_PAGE,
        per_page is None ==> page_size(per_page) == DEFAULT_PER_PAGE,
        per_page matches Some(v) ==> (v <= MAX_PER_PAGE ==> page_size(per_page) == v),
{
}

/// The first page, and any page number below it, starts at the first task.
pub proof fn lemma_first_page_offset(page: Option<i32>, per_page: Option<i32>)
    requires
        page matches Some(v) ==> v <= 1,
    ensures
        page_offset(page, per_page) == 0,
{
    assert(page_number(page) == 1);
    assert(0 * page_size(per_page) == 0);
}

/// Each page starts where the one before it ends.
pub proof fn lemma_next_page_offset(page: i32, per_page: Option<i32>)
    requires
        1 <= page < i32::MAX,
    ensures
        page_offset(Some((page + 1) as i32), per_page) == page_offset(Some(page), per_page)
            + page_size(per_page),
{
    let s = page_size(per_page);
    assert(page * s == (page - 1) * s + s) by (nonlinear_arith);
}

/// A list query binds one argument to each placeholder it names: three, or
/// four when it filters by completion.
pub proof fn lemma_list_query_arguments(plan: ListPlan)
    ensures
        list_args(plan).len() == (if plan.completed is Some {
            4nat
        } else {
            3nat
        }),
{
}

/// Whatever the request's `sort` and `order` texts, the query orders by one
/// of three columns and in one of two directions.
pub proof fn lemma_sort_choices_closed(sort: Option<Seq<char>>, order: Option<Seq<char>>)
    ensures
        column_name(sort_column_for(sort)) == "title"@ || column_name(sort_column_for(sort))
            == "updated_at"@ || column_name(sort_column_for(sort)) == "created_at"@,
        order_keyword(sort_order_for(order)) == "ASC"@ || order_keyword(sort_order_for(order))
            == "DESC"@,
{
}

/// The list query in full: the owner condition on `$1`, the completion
/// filter on `$2` when asked, the chosen order, then the page's limit and offset.
pub proof fn lemma_list_query_text(column: SortColumn, order: SortOrder)
    ensures
        list_sql(false, column, order) == LIST_SELECT@ + "user_id = $1 ORDER BY "@ + column_name(
            column,
        ) + " "@ + order_keyword(order) + " LIMIT $2 OFFSET $3"@,
        list_sql(true, column, order) == LIST_SELECT@ + "user_id = $1 AND completed = $2 ORDER BY "@
            + column_name(column) + " "@ + order_keyword(order) + " LIMIT $3 OFFSET $4"@,
{
    reveal_strlit("user_id = ");
    reveal_strlit(" AND completed = ");
    reveal_strlit(" ORDER BY ");
    reveal_strlit(" ");
    reveal_strlit(" LIMIT ");
    reveal_strlit(" OFFSET ");
    reveal_strlit("user_id = $1 ORDER BY ");
    reveal_strlit(" LIMIT $2 OFFSET $3");
    reveal_strlit("user_id = $1 AND completed = $2 ORDER BY ");
    reveal_strlit(" LIMIT $3 OFFSET $4");
    lemma_small_placeholders();
    assert(list_sql(false, column, order) =~= LIST_SELECT@ + "user_id = $1 ORDER BY "@
        + column_name(column) + " "@ + order_keyword(order) + " LIMIT $2 OFFSET $3"@);
    assert(list_sql(true, column, order) =~= LIST_SELECT@
        + "user_id = $1 AND completed = $2 ORDER BY "@ + column_name(column) + " "@
        + order_keyword(order) + " LIMIT $3 OFFSET $4"@);
}

} // verus!
