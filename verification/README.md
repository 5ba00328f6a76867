# submitsnap_core

The verified core of the SubmitSnap form-submission backend, written in Verus.

`src/` holds the rules of the service with their contracts and laws, proved by Verus:

- `form/` — form definitions and their validation, submission checking, honeypot filing,
  uploads and file references, CSV/JSON export framing, partial updates, download headers.
  Every definition that passes validation can be answered: `form/sample.rs` builds, for any
  such definition, a payload that submission checking accepts.
- `identity/` — the account record, email normalisation, Argon2id password hashing with a
  pepper, the sign-in decisions and lockout, recovery mail, administration rules, audit records.
- `auth/` — credential cookies, access tokens (signed and checked with `jsonwebtoken`, pinned
  to HS256), refresh-token rotation, bearer tokens.
- `organization.rs` — organization roles and membership decisions.
- `dispatch.rs` — the notification email rendered from a stored submission.
- `email.rs`, `queue.rs`, `worker.rs` — mail provider settings, queue retry and loop pacing.
- `text.rs`, `json.rs`, `pagination.rs`, `error.rs`, `rbac.rs` — shared building blocks.

`app/` is the ordinary Rust around it: reading settings and input, moving parsed JSON into the
library's values, and building cookies with the outside crates.
