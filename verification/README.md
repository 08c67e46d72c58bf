# shortener

A small URL shortener: it serves HTTP redirects, stores mappings in SQLite
and optionally protects URL creation with API keys.

The library in `src/` is written in Verus and verified:

- `code`: short-code validity and random code generation.
- `api_key`: API key generation and hashing (base64, SHA-256, hex).
- `database`: the SQLite storage of users, keys and codes, and how each
  storage outcome maps to a `DatabaseError`.
- `sqlite`: the calls into `rusqlite`.
- `server`: what each HTTP request is answered: routing, authentication,
  body checks, code creation and redirects, and the access-log lines.
- `cli`: what the management commands do and report.
- `config`, `text`, `version`: configuration, text helpers, version text.

`app/` holds the programs around it: the axum server, the access logger and
the two command-line tools (`shortener-key`, `shortener-url`). One
executable serves all three and picks by the name it was started under.
