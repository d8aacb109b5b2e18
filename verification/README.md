# switcharoo

A multi-tenant feature flag service. Each tenant's flags live in one Redis
hash; users and permissions live in Postgres; requests carry a JSON web token.

- `src/` is the verified library: the Redis keys and commands of the flag
  store with a model of their effect (read-after-write, tenant isolation),
  how replies read as flags, the feature-flag requests, password hashing and
  checking with Argon2, token claims and answers, the web asset paths, and
  the connection helper.
- `app/` is the server: the actix-web routes, the Redis pool and Postgres
  queries, the JWT encoding (serde), configuration and session handling.
- `tests/` exercises the library on concrete values.
