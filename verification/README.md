# usage_dash

A localhost-only dashboard of provider usage, with its rules verified by
Verus.

- `src/` is the verified library:
  - `config`: the listening address (always `127.0.0.1`) and the database path;
  - `database` and `sqlite`: the SQLite store of accounts, onboarding progress
    and providers, over `rusqlite`. Each store handle keeps a ghost log of
    the calls it handed to SQLite (files opened, batches, statements and
    queries with their bound values), and each operation states the calls it
    adds;
  - `secrets`: Secret Manager references, the `gcloud` arguments that read
    them, and the secret made of the command's output;
  - `providers`: collector selection (Apify, OpenAI, Resend), error texts, and the non-numeric parts
    of the OpenAI collector (currency, alert interval, month window);
  - `web::routes`: form validation, secret-reference normalisation, refresh
    decisions, tallies and messages, and what a sign-in check records;
  - `text`: character-level string operations with their specifications.
- `app/` is the server: HTTP handlers, templates, provider HTTP calls, the
  `gcloud` process, and everything that computes with floating-point usage
  figures.
- `tests/` exercises the library, including a real SQLite file.
