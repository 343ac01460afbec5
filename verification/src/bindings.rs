use crate::listing::{
    list_args, list_plan, list_sql, sort_column_for, sort_order_for, text_param, ListParams,
    LIST_SELECT,
};
use crate::query_builder::{opt_text, placeholder, SqlArg};
use crate::statements::{
    lemma_small_placeholders, task_delete_sql, task_key_args, task_lookup_sql, task_update_args,
    task_update_sql, AND, OWNER_FILTER, TASK_DELETE_HEAD, TASK_LOOKUP_HEAD, TASK_UPDATE_COMPLETED,
    TASK_UPDATE_DESCRIPTION, TASK_UPDATE_HEAD, TASK_UPDATE_RETURNING, TASK_UPDATE_WHERE,
};
use crate::tasks::TaskChanges;
use vstd::prelude::*;

verus! {

/// `tail` does not go on with a digit, so a placeholder before it ends where `tail` begins.
pub open spec fn ends_placeholder(tail: Seq<char>) -> bool {
    tail.len() == 0 || !('0' <= tail[0] && tail[0] <= '9')
}

/// In `sql`, the text `marker` is followed by the placeholder `$k`, which ends
/// there, and the `k`-th argument is `value`.
pub open spec fn marker_bound_at(
    sql: Seq<char>,
    args: Seq<SqlArg>,
    marker: Seq<char>,
    value: SqlArg,
    k: nat,
    head: Seq<char>,
    tail: Seq<char>,
) -> bool {
    &&& 1 <= k <= args.len()
    &&& args[k - 1] == value
    &&& sql == head + marker + placeholder(k) + tail
    &&& ends_placeholder(tail)
}

/// The placeholder that follows `marker` in `sql` is bound to `value`.
pub open spec fn bound_after(
    sql: Seq<char>,
    args: Seq<SqlArg>,
    marker: Seq<char>,
    value: SqlArg,
) -> bool {
    exists|k: nat, head: Seq<char>, tail: Seq<char>|
        #[trigger] marker_bound_at(sql, args, marker, value, k, head, tail)
}

/// A list request that asks for tasks of one completion state compares
/// `completed` with exactly the state asked for.
pub proof fn lemma_list_filter_binds_requested_state(user_id: u128, params: ListParams)
    requires
        params.completed is Some,
    ensures
        bound_after(
            list_sql(
                params.completed is Some,
                sort_column_for(text_param(params.sort)),
                sort_order_for(text_param(params.order)),
            ),
            list_args(list_plan(user_id, params)),
            " AND completed = "@,
            SqlArg::Bool(params.completed->0),
        ),
{
    let sql = list_sql(
        true,
        sort_column_for(text_param(params.sort)),
        sort_order_for(text_param(params.order)),
    );
    let args = list_args(list_plan(user_id, params));
    lemma_small_placeholders();
    reveal_strlit(" ORDER BY ");
    let head = LIST_SELECT@ + OWNER_FILTER@ + placeholder(1);
    let tail = sql.subrange((head + " AND completed = "@ + placeholder(2)).len() as int, sql.len() as int);
    assert(sql =~= head + " AND completed = "@ + placeholder(2) + tail);
    assert(tail[0] == ' ');
    assert(marker_bound_at(sql, args, " AND completed = "@, SqlArg::Bool(params.completed->0), 2, head, tail));
}

/// A list query returns the page asked for: the value after `LIMIT` is the
/// page size asked for (20 if none, at most 100) and the value after `OFFSET`
/// is that size times the number of pages before the one asked for (the page
/// number being at least 1).
pub proof fn lemma_list_binds_requested_page(user_id: u128, params: ListParams)
    ensures
        ({
            let size: int = match params.per_page {
                Some(v) => if v < 100 {
                    v as int
                } else {
                    100
                },
                None => 20,
            };
            let page: int = match params.page {
                Some(v) => if v > 1 {
                    v as int
                } else {
                    1
                },
                None => 1,
            };
            let sql = list_sql(
                params.completed is Some,
                sort_column_for(text_param(params.sort)),
                sort_order_for(text_param(params.order)),
            );
            let args = list_args(list_plan(user_id, params));
            &&& bound_after(sql, args, " LIMIT "@, SqlArg::BigInt(size as i64))
            &&& bound_after(sql, args, " OFFSET "@, SqlArg::BigInt(((page - 1) * size) as i64))
        }),
{
    let filtered = params.completed is Some;
    let column = sort_column_for(text_param(params.sort));
    let order = sort_order_for(text_param(params.order));
    let sql = list_sql(filtered, column, order);
    let plan = list_plan(user_id, params);
    let args = list_args(plan);
    lemma_small_placeholders();
    reveal_strlit(" OFFSET ");
    let n: nat = if filtered {
        3
    } else {
        2
    };
    let before_limit = sql.subrange(
        0,
        sql.len() - (" LIMIT "@ + placeholder(n) + " OFFSET "@ + placeholder(n + 1)).len(),
    );
    let limit_tail = " OFFSET "@ + placeholder(n + 1);
    assert(sql =~= before_limit + " LIMIT "@ + placeholder(n) + limit_tail);
    assert(limit_tail[0] == ' ');
    assert(args.len() == n + 1);
    assert(args[n - 1] == SqlArg::BigInt(plan.limit));
    assert(marker_bound_at(sql, args, " LIMIT "@, SqlArg::BigInt(plan.limit), n, before_limit, limit_tail));
    let before_offset = before_limit + " LIMIT "@ + placeholder(n);
    assert(sql =~= before_offset + " OFFSET "@ + placeholder(n + 1) + Seq::<char>::empty());
    assert(args[n as int] == SqlArg::BigInt(plan.offset));
    assert(marker_bound_at(
        sql,
        args,
        " OFFSET "@,
        SqlArg::BigInt(plan.offset),
        n + 1,
        before_offset,
        Seq::<char>::empty(),
    ));
}

/// A change to a task puts each new value in its own column: the new title
/// in `title = COALESCE(`, the new description in `description = COALESCE(`,
/// the new completion in `completed = COALESCE(`, and the statement is keyed
/// by the task's id after `WHERE id = ` and by the caller after `user_id = `.
pub proof fn lemma_update_binds_each_field(task_id: u128, changes: TaskChanges)
    ensures
        bound_after(
            task_update_sql(),
            task_update_args(task_id, changes),
            "title = COALESCE("@,
            SqlArg::OptText(opt_text(changes.title)),
        ),
        bound_after(
            task_update_sql(),
            task_update_args(task_id, changes),
            "description = COALESCE("@,
            SqlArg::OptText(opt_text(changes.description)),
        ),
        bound_after(
            task_update_sql(),
            task_update_args(task_id, changes),
            "completed = COALESCE("@,
            SqlArg::OptBool(changes.completed),
        ),
        bound_after(
            task_update_sql(),
            task_update_args(task_id, changes),
            "WHERE id = "@,
            SqlArg::Uuid(task_id),
        ),
        bound_after(
            task_update_sql(),
            task_update_args(task_id, changes),
            "user_id = "@,
            SqlArg::Uuid(changes.user_id),
        ),
{
    let sql = task_update_sql();
    let args = task_update_args(task_id, changes);
    lemma_small_placeholders();
    reveal_strlit("UPDATE tasks
           SET title = COALESCE(");
    reveal_strlit("UPDATE tasks
           SET ");
    reveal_strlit("title = COALESCE(");
    reveal_strlit(", title),
               description = COALESCE(");
    reveal_strlit(", title),
               ");
    reveal_strlit("description = COALESCE(");
    reveal_strlit(", description),
               completed = COALESCE(");
    reveal_strlit(", description),
               ");
    reveal_strlit("completed = COALESCE(");
    reveal_strlit(", completed),
               updated_at = NOW()
           WHERE id = ");
    reveal_strlit(", completed),
               updated_at = NOW()
           ");
    reveal_strlit("WHERE id = ");
    reveal_strlit(" AND ");
    reveal_strlit("user_id = ");
    reveal_strlit("
           RETURNING id, title, description, user_id, completed, created_at, updated_at");
    let h1 = "UPDATE tasks
           SET "@;
    let d1 = ", title),
               "@;
    let c1 = ", description),
               "@;
    let w1 = ", completed),
               updated_at = NOW()
           "@;
    assert(TASK_UPDATE_HEAD@ =~= h1 + "title = COALESCE("@);
    assert(TASK_UPDATE_DESCRIPTION@ =~= d1 + "description = COALESCE("@);
    assert(TASK_UPDATE_COMPLETED@ =~= c1 + "completed = COALESCE("@);
    assert(TASK_UPDATE_WHERE@ =~= w1 + "WHERE id = "@);

    let t1 = TASK_UPDATE_DESCRIPTION@ + placeholder(2) + TASK_UPDATE_COMPLETED@ + placeholder(3)
        + TASK_UPDATE_WHERE@ + placeholder(4) + AND@ + OWNER_FILTER@ + placeholder(5)
        + TASK_UPDATE_RETURNING@;
    assert(sql =~= h1 + "title = COALESCE("@ + placeholder(1) + t1);
    assert(marker_bound_at(sql, args, "title = COALESCE("@, args[0], 1, h1, t1));

    let p2 = TASK_UPDATE_HEAD@ + placeholder(1) + d1;
    let t2 = TASK_UPDATE_COMPLETED@ + placeholder(3) + TASK_UPDATE_WHERE@ + placeholder(4) + AND@
        + OWNER_FILTER@ + placeholder(5) + TASK_UPDATE_RETURNING@;
    assert(sql =~= p2 + "description = COALESCE("@ + placeholder(2) + t2);
    assert(marker_bound_at(sql, args, "description = COALESCE("@, args[1], 2, p2, t2));

    let p3 = TASK_UPDATE_HEAD@ + placeholder(1) + TASK_UPDATE_DESCRIPTION@ + placeholder(2) + c1;
    let t3 = TASK_UPDATE_WHERE@ + placeholder(4) + AND@ + OWNER_FILTER@ + placeholder(5)
        + TASK_UPDATE_RETURNING@;
    assert(sql =~= p3 + "completed = COALESCE("@ + placeholder(3) + t3);
    assert(marker_bound_at(sql, args, "completed = COALESCE("@, args[2], 3, p3, t3));

    let p4 = TASK_UPDATE_HEAD@ + placeholder(1) + TASK_UPDATE_DESCRIPTION@ + placeholder(2)
        + TASK_UPDATE_COMPLETED@ + placeholder(3) + w1;
    let t4 = AND@ + OWNER_FILTER@ + placeholder(5) + TASK_UPDATE_RETURNING@;
    assert(sql =~= p4 + "WHERE id = "@ + placeholder(4) + t4);
    assert(marker_bound_at(sql, args, "WHERE id = "@, args[3], 4, p4, t4));

    let p5 = TASK_UPDATE_HEAD@ + placeholder(1) + TASK_UPDATE_DESCRIPTION@ + placeholder(2)
        + TASK_UPDATE_COMPLETED@ + placeholder(3) + TASK_UPDATE_WHERE@ + placeholder(4) + AND@;
    assert(sql =~= p5 + OWNER_FILTER@ + placeholder(5) + TASK_UPDATE_RETURNING@);
    assert(marker_bound_at(sql, args, "user_id = "@, args[4], 5, p5, TASK_UPDATE_RETURNING@));
}

/// Reading or deleting a task is keyed by the task's id after `WHERE id = `
/// and by the caller after `user_id = `.
pub proof fn lemma_task_key_binds_task_and_owner(task_id: u128, user_id: u128)
    ensures
        bound_after(task_lookup_sql(), task_key_args(task_id, user_id), "WHERE id = "@, SqlArg::Uuid(task_id)),
        bound_after(task_lookup_sql(), task_key_args(task_id, user_id), "user_id = "@, SqlArg::Uuid(user_id)),
        bound_after(task_delete_sql(), task_key_args(task_id, user_id), "WHERE id = "@, SqlArg::Uuid(task_id)),
        bound_after(task_delete_sql(), task_key_args(task_id, user_id), "user_id = "@, SqlArg::Uuid(user_id)),
{
    let args = task_key_args(task_id, user_id);
    lemma_small_placeholders();
    reveal_strlit("SELECT id, title, description, user_id, completed, created_at, updated_at
           FROM tasks
           WHERE id = ");
    reveal_strlit("SELECT id, title, description, user_id, completed, created_at, updated_at
           FROM tasks
           ");
    reveal_strlit("DELETE FROM tasks
           WHERE id = ");
    reveal_strlit("DELETE FROM tasks
           ");
    reveal_strlit("WHERE id = ");
    reveal_strlit(" AND ");
    let lh = "SELECT id, title, description, user_id, completed, created_at, updated_at
           FROM tasks
           "@;
    let dh = "DELETE FROM tasks
           "@;
    assert(TASK_LOOKUP_HEAD@ =~= lh + "WHERE id = "@);
    assert(TASK_DELETE_HEAD@ =~= dh + "WHERE id = "@);
    let key_tail = AND@ + OWNER_FILTER@ + placeholder(2);

    let lookup = task_lookup_sql();
    assert(lookup =~= lh + "WHERE id = "@ + placeholder(1) + key_tail);
    assert(marker_bound_at(lookup, args, "WHERE id = "@, SqlArg::Uuid(task_id), 1, lh, key_tail));
    let lp = TASK_LOOKUP_HEAD@ + placeholder(1) + AND@;
    assert(lookup =~= lp + OWNER_FILTER@ + placeholder(2) + Seq::<char>::empty());
    assert(marker_bound_at(lookup, args, "user_id = "@, SqlArg::Uuid(user_id), 2, lp, Seq::<char>::empty()));

    let delete = task_delete_sql();
    assert(delete =~= dh + "WHERE id = "@ + placeholder(1) + key_tail);
    assert(marker_bound_at(delete, args, "WHERE id = "@, SqlArg::Uuid(task_id), 1, dh, key_tail));
    let dp = TASK_DELETE_HEAD@ + placeholder(1) + AND@;
    assert(delete =~= dp + OWNER_FILTER@ + placeholder(2) + Seq::<char>::empty());
    assert(marker_bound_at(delete, args, "user_id = "@, SqlArg::Uuid(user_id), 2, dp, Seq::<char>::empty()));
}

} // verus!
