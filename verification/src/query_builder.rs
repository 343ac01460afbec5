use sqlx::{Postgres, QueryBuilder};
use crate::text::{fits_bind, opt_fits_bind};
use vstd::prelude::*;

verus! {

/// A Postgres query under construction: SQL text with bound arguments.
/// The builder is built by the caller that runs the query.
#[verifier::external_body]
pub struct PgQuery {
    pub builder: QueryBuilder<'static, Postgres>,
}

/// A value bound to a query argument.
pub enum SqlArg {
    Uuid(u128),
    Bool(bool),
    BigInt(i64),
    Text(Seq<char>),
    OptText(Option<Seq<char>>),
    OptBool(Option<bool>),
}

/// The view of an optional text.
pub open spec fn opt_text(t: Option<String>) -> Option<Seq<char>> {
    match t {
        Some(s) => Some(s@),
        None => None,
    }
}

/// The SQL text accumulated so far by a query.
pub uninterp spec fn query_sql(q: PgQuery) -> Seq<char>;

/// The values bound so far to a query's arguments, in order.
pub uninterp spec fn query_args(q: PgQuery) -> Seq<SqlArg>;

/// The character of a decimal digit.
pub open spec fn digit_char(d: nat) -> char {
    if d == 0 {
        '0'
    } else if d == 1 {
        '1'
    } else if d == 2 {
        '2'
    } else if d == 3 {
        '3'
    } else if d == 4 {
        '4'
    } else if d == 5 {
        '5'
    } else if d == 6 {
        '6'
    } else if d == 7 {
        '7'
    } else if d == 8 {
        '8'
    } else {
        '9'
    }
}

/// The decimal spelling of `n`, without leading zeros.
pub open spec fn decimal(n: nat) -> Seq<char>
    decreases n,
{
    if n < 10 {
        seq![digit_char(n)]
    } else {
        decimal(n / 10).push(digit_char(n % 10))
    }
}

/// The Postgres placeholder of the `n`-th argument: `$n`.
pub open spec fn placeholder(n: nat) -> Seq<char> {
    seq!['$'] + decimal(n)
}

/// `QueryBuilder::new`: the query starts with `init` as its text and no arguments.
#[verifier::external_body]
pub(crate) fn new_query(init: &str) -> (q: PgQuery)
    ensures
        query_sql(q) == init@,
        query_args(q) == Seq::<SqlArg>::empty(),
{
    PgQuery { builder: QueryBuilder::new(init) }
}

/// `QueryBuilder::push`: appends `sql` to the query's text.
#[verifier::external_body]
pub(crate) fn push_sql(q: &mut PgQuery, sql: &str)
    ensures
        query_sql(*final(q)) == query_sql(*old(q)) + sql@,
        query_args(*final(q)) == query_args(*old(q)),
{
    q.builder.push(sql);
}

/// `QueryBuilder::push_bind` of a `uuid::Uuid`: binds the next argument to the
/// UUID with this 128-bit value and appends its placeholder `$n`, `n` being
/// the number of arguments bound so far, this one included.
#[verifier::external_body]
pub(crate) fn push_bind_uuid(q: &mut PgQuery, value: u128)
    ensures
        query_args(*final(q)) == query_args(*old(q)).push(SqlArg::Uuid(value)),
        query_sql(*final(q)) == query_sql(*old(q)) + placeholder(query_args(*final(q)).len()),
{
    q.builder.push_bind(uuid::Uuid::from_u128(value));
}

/// `QueryBuilder::push_bind` of a `bool`: binds the next argument and appends
/// its placeholder.
#[verifier::external_body]
pub(crate) fn push_bind_bool(q: &mut PgQuery, value: bool)
    ensures
        query_args(*final(q)) == query_args(*old(q)).push(SqlArg::Bool(value)),
        query_sql(*final(q)) == query_sql(*old(q)) + placeholder(query_args(*final(q)).len()),
{
    q.builder.push_bind(value);
}

/// `QueryBuilder::push_bind` of an `i64`: binds the next argument and appends
/// its placeholder.
#[verifier::external_body]
pub(crate) fn push_bind_i64(q: &mut PgQuery, value: i64)
    ensures
        query_args(*final(q)) == query_args(*old(q)).push(SqlArg::BigInt(value)),
        query_sql(*final(q)) == query_sql(*old(q)) + placeholder(query_args(*final(q)).len()),
{
    q.builder.push_bind(value);
}

/// `QueryBuilder::push_bind` of a `String` holding `value`: binds the next
/// argument and appends its placeholder. (A text whose encoding is longer
/// than `i32::MAX` bytes makes the call panic.)
#[verifier::external_body]
pub(crate) fn push_bind_text(q: &mut PgQuery, value: &str)
    requires
        fits_bind(value@),
    ensures
        query_args(*final(q)) == query_args(*old(q)).push(SqlArg::Text(value@)),
        query_sql(*final(q)) == query_sql(*old(q)) + placeholder(query_args(*final(q)).len()),
{
    q.builder.push_bind(value.to_string());
}

/// `QueryBuilder::push_bind` of an `Option<String>` (`None` binds NULL): binds
/// the next argument and appends its placeholder. (A text whose encoding is
/// longer than `i32::MAX` bytes makes the call panic.)
#[verifier::external_body]
pub(crate) fn push_bind_opt_text(q: &mut PgQuery, value: Option<String>)
    requires
        opt_fits_bind(value),
    ensures
        query_args(*final(q)) == query_args(*old(q)).push(SqlArg::OptText(opt_text(value))),
        query_sql(*final(q)) == query_sql(*old(q)) + placeholder(query_args(*final(q)).len()),
{
    q.builder.push_bind(value);
}

/// `QueryBuilder::push_bind` of an `Option<bool>` (`None` binds NULL): binds
/// the next argument and appends its placeholder.
#[verifier::external_body]
pub(crate) fn push_bind_opt_bool(q: &mut PgQuery, value: Option<bool>)
    ensures
        query_args(*final(q)) == query_args(*old(q)).push(SqlArg::OptBool(value)),
        query_sql(*final(q)) == query_sql(*old(q)) + placeholder(query_args(*final(q)).len()),
{
    q.builder.push_bind(value);
}

} // verus!
