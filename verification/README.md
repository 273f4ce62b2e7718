# social_media_app

The backend of a small social network (accounts, follows, posts, likes and
comments) over PostgreSQL, with a Redis response cache and JWT
authentication.

## Layout

- `src/` is the verified library.
  - `models/`: accounts, posts, likes and comments as plain values
    (identifiers as `u128`, instants as microseconds since the Unix epoch,
    dates as days from the common era).
  - `utils/`: pagination, cache keys and removal patterns (with a model of
    how a `*` pattern matches keys), the contents of access and refresh
    tokens, identifier text, password hashing, and small text routines.
  - `services/`: every request handler as a state machine. A handler's
    start function takes the request's inputs and returns its first state
    and action; `resume` takes the answer to that action (a database row, a
    cache hit, a signed token, a failure) and returns the next ones until
    the request is answered. The contracts say, for each answer, what is
    asked next or replied; where a password is hashed, whose salt is
    random, they say what holds of every outcome of the hashing, and a
    separate function says exactly what follows each outcome.
  - `services/tables.rs`: a model of the account, post, like and follow
    rows and of the cache's keys, of what each statement does to them and
    how the driver answers; the laws that span requests (counts kept, a
    like undone by an unlike, a follow undone by an unfollow, a registered
    account that logs in, a new post heading its author's first page) are
    proved over runs of the handlers in it.
- `app/` is the server around it: configuration, the router, the driver
  that runs each handler's actions against PostgreSQL, Redis and the token
  signer, and the JSON forms of the library's types.
- `tests/` runs the library on concrete requests.
