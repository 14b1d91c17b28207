# inventario

The verified core of a multi-tenant inventory, sales and billing platform,
written in Verus.

- `src/` is the library, verified by Verus: the data model (`models`), the
  errors and their HTTP answers (`errors`), authentication and authorisation
  (`auth`), the decisions of the endpoints (`handlers`), text helpers with
  their models over `Seq<char>` (`texto`), and the trusted wrappers around
  sha2, hex, bcrypt, jsonwebtoken, serde_json, uuid and rand (`cripto`,
  `aleatorio`, `auth`, `handlers::billing`).
- `app/` is the HTTP server around it (axum, sqlx, genpdf):
  requests, storage, the clock, PDF rendering and every computation on money
  amounts, which are floating point.
- `tests/` runs the library on concrete values.
