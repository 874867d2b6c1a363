# auth_service

Account bookkeeping for a small authentication service: sign up, look up
and update users kept in a Postgres table.

- `src/` is the verified library. `models` holds the records that cross
  between the HTTP layer and the table; `services::user` holds what
  each service operation decides and answers, given the rows that the
  table handed back (for a sign-up, whether to insert and which id to
  answer; for a lookup, the user found; for an update, the columns it
  writes and its answer once the row is rewritten); `services::table`
  models the table as a sequence of rows and proves what the operations
  do to it; `handlers` holds what each endpoint
  answers for the service's result.
- `app/` is the server: actix-web routes, JSON bodies, the diesel queries
  that the library's decisions ask for, the connection pool, migrations and
  logging.
