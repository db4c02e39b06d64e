# ntfy

A notification server that speaks the ntfy protocol: publish over HTTP,
subscribe by SSE, JSON stream or raw text, with a message cache, accounts and
access lists, attachments with quotas, Firebase and Web Push delivery, a
Matrix (UnifiedPush) gateway and an SMTP gateway.

## Layout

- `src/` is the library, verified with Verus. Its modules hold the decisions
  the server makes, each with a contract:
  - `auth`: roles, tiers, logins and access decisions (with the laws of the
    access rules);
  - `publish` and `flow`: what a publish request sets, its refusals, its
    schedule, its attachment, and the order in which a request meets them;
  - `message`: messages, their cache rows and the read-back law;
  - `actions`: the grammar of the `Actions` header;
  - `schedule`: delays and `since=` values;
  - `smtp`: the SMTP gateway's session, fed the bytes of a connection;
  - `fcm`: the Firebase request for a message;
  - `limits`: the attachment store's quota and daily bandwidth;
  - `gateway`, `config`, `text`: smaller decisions and text helpers;
  - `outside`: the calls into other crates, each a trusted contract.
- `app/` is the server program: HTTP routes, SQLite queries, files, sockets,
  push clients and the command line. It gathers each request's parts, asks the
  library, and carries out what it answers.
- `tests/` exercises the library on concrete values.
