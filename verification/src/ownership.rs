use crate::listing::{list_args, list_sql, ListPlan, LIST_SELECT};
use crate::query_builder::{placeholder, SqlArg};
use crate::statements::{
    stats_args, stats_sql, task_delete_sql, task_key_args, task_lookup_sql, task_update_args,
    task_update_sql, AND, OWNER_FILTER, STATS_HEAD, TASK_DELETE_HEAD, TASK_LOOKUP_HEAD,
    TASK_UPDATE_COMPLETED, TASK_UPDATE_DESCRIPTION, TASK_UPDATE_HEAD, TASK_UPDATE_RETURNING,
    TASK_UPDATE_WHERE,
};
use crate::tasks::TaskChanges;
use vstd::prelude::*;

verus! {

/// The owner condition `user_id = $k` stands in `sql` between `head` and
/// `tail`, and the `k`-th argument is the id of user `user_id`.
pub open spec fn owner_condition_at(
    sql: Seq<char>,
    args: Seq<SqlArg>,
    user_id: u128,
    k: nat,
    head: Seq<char>,
    tail: Seq<char>,
) -> bool {
    &&& 1 <= k <= args.len()
    &&& args[k - 1] == SqlArg::Uuid(user_id)
    &&& sql == head + OWNER_FILTER@ + placeholder(k) + tail
}

/// A statement is confined to the rows of user `user_id`: its text holds the
/// owner condition on a placeholder whose argument is that user's id.
pub open spec fn confined_to_owner(sql: Seq<char>, args: Seq<SqlArg>, user_id: u128) -> bool {
    exists|k: nat, head: Seq<char>, tail: Seq<char>|
        #[trigger] owner_condition_at(sql, args, user_id, k, head, tail)
}

/// Every statement that lists, reads, changes, deletes or counts tasks is
/// confined to the tasks of the user who asks.
pub proof fn lemma_task_statements_confined_to_owner(
    task_id: u128,
    user_id: u128,
    changes: TaskChanges,
    plan: ListPlan,
)
    requires
        changes.user_id == user_id,
        plan.user_id == user_id,
    ensures
        confined_to_owner(
            list_sql(plan.completed is Some, plan.column, plan.order),
            list_args(plan),
            user_id,
        ),
        confined_to_owner(task_lookup_sql(), task_key_args(task_id, user_id), user_id),
        confined_to_owner(task_update_sql(), task_update_args(task_id, changes), user_id),
        confined_to_owner(task_delete_sql(), task_key_args(task_id, user_id), user_id),
        confined_to_owner(stats_sql(), stats_args(user_id), user_id),
{
    let list = list_sql(plan.completed is Some, plan.column, plan.order);
    let list_tail = list.subrange(
        (LIST_SELECT@ + OWNER_FILTER@ + placeholder(1)).len() as int,
        list.len() as int,
    );
    assert(list =~= LIST_SELECT@ + OWNER_FILTER@ + placeholder(1) + list_tail);
    assert(owner_condition_at(list, list_args(plan), user_id, 1, LIST_SELECT@, list_tail));

    let key_head = TASK_LOOKUP_HEAD@ + placeholder(1) + AND@;
    assert(task_lookup_sql() =~= key_head + OWNER_FILTER@ + placeholder(2) + Seq::<char>::empty());
    assert(owner_condition_at(
        task_lookup_sql(),
        task_key_args(task_id, user_id),
        user_id,
        2,
        key_head,
        Seq::<char>::empty(),
    ));

    let delete_head = TASK_DELETE_HEAD@ + placeholder(1) + AND@;
    assert(task_delete_sql() =~= delete_head + OWNER_FILTER@ + placeholder(2)
        + Seq::<char>::empty());
    assert(owner_condition_at(
        task_delete_sql(),
        task_key_args(task_id, user_id),
        user_id,
        2,
        delete_head,
        Seq::<char>::empty(),
    ));

    let update_head = TASK_UPDATE_HEAD@ + placeholder(1) + TASK_UPDATE_DESCRIPTION@ + placeholder(2)
        + TASK_UPDATE_COMPLETED@ + placeholder(3) + TASK_UPDATE_WHERE@ + placeholder(4) + AND@;
    assert(task_update_sql() =~= update_head + OWNER_FILTER@ + placeholder(5)
        + TASK_UPDATE_RETURNING@);
    assert(owner_condition_at(
        task_update_sql(),
        task_update_args(task_id, changes),
        user_id,
        5,
        update_head,
        TASK_UPDATE_RETURNING@,
    ));

    assert(stats_sql() =~= STATS_HEAD@ + OWNER_FILTER@ + placeholder(1) + Seq::<char>::empty());
    assert(owner_condition_at(
        stats_sql(),
        stats_args(user_id),
        user_id,
        1,
        STATS_HEAD@,
        Seq::<char>::empty(),
    ));
}

} // verus!
