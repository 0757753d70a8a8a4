# frontend

The client-side logic of a forum and "bucket questions" web application,
together with the entity store and flocking of a boids simulation, written
in Verus. The functions in `src/` are verified by Verus against their
contracts; those that only build an empty value, and the traversal that
hands every live entity to a caller's closure, promise nothing further.

## Layout

- `src/` — the verified library.
  - `ecs.rs` — the fixed-capacity entity store (`System`) and its id traits.
  - `boids.rs` — boid and obstacle ids, grouping boids into flocks, the
    simulation page's click and redraw decisions.
  - `fetch.rs`, `sending.rs`, `context.rs` — requests: URLs, methods, bodies,
    bearer headers, token renewal, and how answers are read.
  - `requests.rs` — the request records and the paths of the bucket, forum
    and account requests.
  - `jwt.rs`, `login.rs` — the stored token, its payload, the login agent and
    the page header.
  - `ids.rs`, `text.rs` — identifiers and the text that goes into paths.
  - `datatypes.rs`, `loadable.rs`, `input.rs` — records, values in flight,
    and form fields.
  - `auth.rs`, `bucket.rs`, `bucket_model.rs`, `forum.rs` — the state
    machines of the pages: each `update` takes a message and returns whether
    to redraw and what to send.
  - `routes.rs` — routes as path segments, reading them back, and which part
    of the page a path selects.
- `tests/` — tests of the library on concrete values.
- `app/` — the program around the library: JSON forms of the records, the
  floating-point physics of the boids simulation, and a `main` that runs it.
