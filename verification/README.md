# sharers

A small file and link sharing service.  Users holding an upload token post
files or destinations; each is recorded under a random ten-character name
(or a custom one) and the reply links to it.  `GET /{name}` serves a file or
redirects to a link's destination.

## Layout

- `src/` is the verified library (Verus).
  - `text.rs`: trimming, integer parsing, hex, path joining, stated over
    `Seq<char>`.
  - `database/`: identifiers (UUID values and their text form) and the
    stored records as plain values.
  - `modules/`: password hashing (Argon2), content sniffing (`infer`), random
    names and the search for a free one, build information for pages.
  - `storage/`: where objects go in a local directory or an S3 bucket, and
    what is recorded about them.
  - `routes/`: the request handlers, each a chain of steps; a step takes the
    result of the last database or storage call and says what comes next,
    down to the reply.
- `app/` is the server: HTTP (axum), the database queries (sqlx), file and
  bucket I/O, templates (tera), and the loop that runs each handler's steps.
- `tests/` exercises the library on concrete values.
