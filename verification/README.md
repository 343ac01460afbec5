# tasks_backend

A task-tracking web service: users register and log in, then create, list,
read, change and delete their own tasks and see counts of them.

- `src/` is the verified core (Verus): request validation, password hashing
  and checking, reading the owner from a token subject, the SQL statements
  the service runs (built with sqlx's `QueryBuilder`, their text and bound
  arguments stated exactly), pagination and sorting of task lists, and how
  storage results are answered.
- `app/` is the HTTP layer (axum): routes, extractors, the database pool,
  tokens, and the floating-point share of completed tasks.
- `tests/` exercises the core on concrete values.
