# by_the_peoples

The services of ByThePeoples — an authentication service and a GraphQL API
service — with their logic written and proved in Verus.

- `src/` is the verified library. Each operation of the authentication
  service (sign-in, creating, updating and deleting credentials, requesting
  and confirming a password reset) is a state machine: it names one piece of
  outside work at a time (a storage operation, or hashing or checking a
  password with Argon2), and decides on the answer. Password strength
  (zxcvbn), tokens (jsonwebtoken), random reset tokens (ring) and the
  Postgres configuration (tokio-postgres) are called from the library
  through small trusted wrappers.
- `app/` runs the services: HTTP with actix-web, GraphQL with juniper, the
  Postgres pool with bb8, the cache with redis, and Argon2 with argonautica.
  It performs the work the state machines ask for and writes their replies.
- `tests/` runs the library on concrete inputs.
