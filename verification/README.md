# spacies

The request logic of a team-workspace service (accounts, spaces, channels,
channel and direct messages, threads, events, projects, tasks, mail folders
and file assets), written in Verus and verified against its contracts.

The data lives in an in-memory relational store (`src/store.rs`): one vector
of rows per table and the next id of each table. Every operation of the
service is a function on that store whose contract says, over the store's
view (sequences of rows), what it returns and how the tables change.

The server in `app/` runs on that store as well: it keeps its data in
memory only, so everything is lost when the process stops; there is no
database behind it.

Layout:

- `src/text.rs`, `src/datetime.rs`, `src/table.rs`, `src/paginate.rs`: the
  `ILIKE` matcher, calendar dates, generic table queries (first match,
  selection, update, deletion, join, stable sort) and pagination.
- `src/model.rs`, `src/store.rs`, `src/insert.rs`, `src/queries.rs`,
  `src/types.rs`: rows, the store, inserts, shared lookups, request and
  response types.
- `src/controllers/`: the operations, one module per area.
- `src/helpers/`: password hashing (bcrypt), secret encryption (magic-crypt),
  mail bodies, live-update channel names, upload names and limits, and the
  daily reminder job.
- `src/auth.rs`: signed tokens (jsonwebtoken): making, decoding and
  validating them.
- `src/helpers/mail.rs`: the mails the service sends (recipient, subject,
  body).
- `src/laws.rs`: properties that span operations, proved as lemmas.
- `app/`: the actix-web server around the library (routing, SMTP, S3,
  multipart uploads, the clock and the environment).
- `tests/`: tests of the library on concrete values.
