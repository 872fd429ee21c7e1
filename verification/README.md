# idle_champions_codes

A web API that lists Idle Champions codes and lets listers store new ones, with its logic
verified by Verus.

- `src/` is the verified library:
  - `util`: date-times as Unix seconds plus nanoseconds, the calls into the `time` crate that parse, read the
    clock and print them, and a verified substring search.
  - `auth`: the API key taken from the `x-api-key` header.
  - `db`: sources and codes as the database holds them, the mapping of listing rows to codes, and
    the parameters sent to store a new code (the submitter defaults to the creator).
  - `web`: error answers, and the listing of codes with its source table, with the laws that tie
    the two together.
  - `routes`: the answers of the routes and the steps of storing a code, as a state machine whose
    laws say that a code is only stored for the lister whose key was found.
- `app/` is the Rocket server: routes, SQL through `sqlx`, and the JSON forms of the library's values.
- `tests/` runs the library on concrete values.
