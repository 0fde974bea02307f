# rocket_auth

Authentication support for Rocket applications, as a Verus-verified library
with a thin unverified shell.

- `src/session.rs`: the default session store (a `chashmap::CHashMap` from user
  id to `AuthKey`), its operations with contracts over a `Map` view, the laws
  that relate them, and `now`.
- `src/user.rs`: random salts and Argon2 password hashing for new accounts.
- `src/error.rs`: the `Error` type, the message shown to clients, and its
  conversions.
- `src/program.rs`: the computation of the demo program.
- `app/`: the program entry point, the SQLite database, the Redis session
  backend, the asynchronous `Users` handle, and the `thiserror`/Rocket traits
  of the error type.
