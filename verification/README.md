# strawberry_id

The logic of Strawberry ID, a single-sign-on service, as a library verified
with Verus, and the web server around it.

- `src/` is the verified library. `system_core` holds the store of login
  codes: codes are drawn from a ten-digit range, never overwrite a pending
  code, expire after five minutes, and a website code logs a user in once.
  `object::LoginMeta::collect` and the modules `login`, `oauth`, `api`,
  `account` and `routes` compute what each page shows and where each login
  continues. `primitives` holds every call into another crate (sha2, hex,
  argon2, rand, serde_json, totp-rs, urlencoding) and into the parts of std
  that vstd does not specify, but for the clock read of
  `utilities::unix_time`; their contracts are trusted.
- `app/` is the Rocket server: configuration and message files, the SQLite
  user database, cookies, templates and JSON answers. It asks the library
  for every decision.
- `tests/` runs the library on concrete values.
