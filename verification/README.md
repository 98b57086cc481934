# rust_todo

A web service that keeps task lists for its users: accounts with Argon2
password hashes, auth keys handed out at login, and tasks that only their
owner can read or change.

- `src/` is the verified library. `domain_types` validates input (usernames
  and task titles must not be blank), `database` holds the rows and the
  decisions taken on query results, `service` maps errors to HTTP replies,
  `passwords` and `ids` call argon2 and uuid, and `web_api` runs each endpoint
  as a state machine: from a request's state and the outcome of the last
  database operation to its next state and the next operation or the reply.
- `app/` is the HTTP server (actix-web), the database access (diesel on
  PostgreSQL) and the command line; it performs the operations that the
  library asks for.
- `tests/` drives the endpoints against a database kept in memory.
