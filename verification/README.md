# blog

A small blog service over HTTP and PostgreSQL.

- `src/` is the library, verified with Verus: the errors of the endpoints and
  their HTTP answers (`api::error`), the claims of access tokens
  (`api::jwt`), reading the bearer token of a request (`api::extract`), the
  records that the endpoints read and answer with (`api::endpoint`), the
  request log with its masking of passwords and tokens
  (`api::middleware::console`, over the JSON functions of
  `api::middleware::json`), the configuration (`service`), and the few
  standard-library text functions that these call (`text`).
- `app/` is the program around it: reading the environment, the routes and
  database queries, signing and reading tokens, the logging middleware and
  `main`.
- `tests/` runs the library on concrete values.
