# blackwell

The request handling of the BlackWell messaging API, verified with Verus.

`src/` is the library: every decision the API takes is a function with a contract.

- `text` — character-level equality and suffix tests on string slices.
- `checks` — hexadecimal profile pictures (through the `regex` crate), the profile
  size limit, and the Gmail-only rule for mail.
- `verification` — verification codes (through `rand`), account identifiers (through
  `uuid`) and the expiry of pending registrations (through `chrono`).
- `records` — the stored documents and what is derived from them.
- `schemas` — request and answer bodies.
- `ratelimiter` — the request quotas of each group of endpoints.
- `systems` — registration, verification, deletion, login and profiles, as steps that
  take what the store or the mail server answered.
- `endpoints` — the index page, the error pages, and the action, queue and contact
  endpoints, as steps.
- `db` — the decisions the store operations take on what the store answered.

`app/` is the server: Rocket routes, the MongoDB store, the SMTP mail, the clock, and
the JSON/BSON copies of the library's types. It runs the steps the library decides.

`tests/` exercises the library on concrete values.
