# yrmos

Organises car rides within an organisation: people register and log in,
drivers offer rides, passengers reserve seats and pay the driver through Pix.

The crate is in two parts.

- `src/` is the library, verified with Verus. It holds the rules of the
  application with their contracts:
  - `schema`: people (registration with an Argon2 password hash, login),
    rides (creation, links, who may reserve), sessions (creation, the session
    cookie and reading it back, which sessions a logout ends);
  - `pix`: the EMV "copia e cola" payment code with its CRC-16 field;
  - `errors`: the errors, their messages, HTTP statuses and answers;
  - `pages`: the decisions behind the ride page and the navigation bar;
  - `forms`: reading the departure date and time of the new-ride form;
  - `ids`, `clock`, `money`, `text`, `crypto`: identifiers, instants,
    decimal amounts, number formatting and password hashing.
- `app/` is the web server around it (axum, maud, sqlx on PostgreSQL): the
  command line, the database queries, the routes and the HTML.

The server reads its icons and compiled stylesheet (`style.css` and
`style.hash`) from the assets directory (`--assets-dir`, default `assets`)
and its migrations from `--migrations-dir` (default `db/migrations`).
