# spus

A small URL-shortening service. `src/` is the verified library (Verus);
`app/` is the HTTP server around it (axum, Diesel on PostgreSQL, tracing).

- `src/db.rs`, `src/db/url.rs`: the stored record `Url` and the database errors.
- `src/service/short_url.rs`: the search for a free short identifier (one step
  per store lookup) and the record a new short link is stored as.
- `src/service/long_url.rs`: the lookup key of an identifier and the
  resolution of a looked-up row; the round-trip law.
- `src/routes.rs`: the decisions of the HTTP handlers.
- `src/utils/`: response framing, the required environment, errors.
- `src/trusted.rs`: the calls into murmurhash32, nanoid, chrono, serde_json
  and url, with the contracts the proofs rely on.
