# axum_backend_series

The authentication core of an Axum back end, verified with Verus.

* `src/` — the verified library.
  * `service/` — each operation of the service (registration, login, logout,
    e-mail verification, refresh-token rotation with reuse detection,
    forgotten and reset passwords, access-token authentication) as a state
    machine: from a state and the answer to the last piece of outside work to
    the next state and the next piece of work, or the outcome. Proof
    functions beside them state what every run keeps (for example that a
    refresh succeeds only after marking the presented token used and storing
    the new one, and that a reused token can never succeed).
  * `models/` — users, stored tokens, requests with their field rules, errors.
  * `validation.rs` — field rules and the report of broken rules.
  * `http.rs` — error answers and status codes, response bodies, reading the
    `Authorization: Token …` header.
  * `time.rs`, `identity.rs`, `fault.rs` — instants, user ids, internal faults.
* `app/` — the server around it: the ports (repositories, mailer,
  credentials), the loop that performs the work each operation asks for, the
  HTTP handlers and the Postgres adapters.
* `tests/` — tests of the library on concrete values.
