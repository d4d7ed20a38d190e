# my_api

The verified core of a todo-list backend (Axum, MongoDB, bcrypt, JWT).

- `src/` is the library, verified with Verus: the stored task and user
  types, the decision each endpoint takes once the database or the token
  check has answered, password hashing and checking (bcrypt), the claims of
  new tokens (chrono for the expiry), and `laws.rs`, which proves what
  sequences of requests do to the task and user collections as modelled in
  `src/tasks/collection.rs`.
- `app/` is the server: routes, MongoDB I/O, signing and checking tokens
  with jsonwebtoken (both serialize the claims with serde), and serde copies
  of the library's types.
- `tests/` runs the library on concrete values.
