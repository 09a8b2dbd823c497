# backend

The verified core of a cookie-based JWT authentication service.

- `src/` is the library, verified with Verus: cookie values and their lookup
  (`cookies`), token claims framing and signing (`jwt`), SHA-256 token digests
  (`digest`), Argon2 password hashing (`password`), the credential records
  (`models`), the rate-limit quotas (`rate_limit`) and the decisions of the
  endpoints (`auth`).
- `app/` is the HTTP server around it: axum routes, the Postgres queries, token
  decoding into the claims record, and the rate-limit middleware.
- `tests/` runs the library on concrete values.
