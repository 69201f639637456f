# simpleshortener

A small URL shortener: a table of short links, each answered with a redirect to
its destination, administered through a JSON API protected by session tokens.

- `src/` is the library, verified with Verus: routing (`app`), the link API
  (`admin`), accounts and sessions (`users`), link lookup (`redirect_handler`,
  `redirect_handlers`), error answers (`error`), QR codes (`qr`), the link
  table file and port settings (`utils`, `db`), the in-memory collections
  (`tables`), and the laws that hold across operations (`laws`).
- `app/` is the server around it: HTTP with axum, the SQLite database with
  sqlx, static pages read from the `resources` directory (or `$RESOURCES`).
- `tests/` runs the library on concrete requests.
