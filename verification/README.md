# carteira

The rules of an investment-portfolio web application (assets with a unit value,
users who sign in with a name and a password, a dashboard in Brazilian currency),
written in Verus and proved against their contracts.

- `src/` is the verified library:
  - `text`: Unicode white space, `trim`, decimal notation of integers;
  - `error`: the errors of the rules and the outcome of a unique insert;
  - `config`: the settings read from environment variable values, with `u64`/`u16`
    parsing as `str::parse` does it;
  - `auth::user`: authentication against a stored password hash and registration
    (through `password-auth`);
  - `auth::token`: the claims of a session token (expiry through `chrono`'s clock);
  - `routes::api`: the input rules of the asset API;
  - `routes::frontend`: the login form's rules and steps, and the BRL format.
- `app/` is the web server around it: axum routes, PostgreSQL through sqlx, JWT
  encoding of the claims, cookies and HTML pages.
- `tests/` runs the library on concrete values.
