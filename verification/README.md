# ems_backend

The core of an election management backend, verified with Verus.

- `src/` — the verified library: canonical identifiers of questions and
  candidates, the SQL insert statements of a project's export, the entries of
  its zip archive and what each of them holds (the SQL text as far as the
  archive's `write` took it, and each candidate's image bytes), with the inputs
  on which writing it succeeds, authorization decisions, query filters (`WHERE`
  clauses as lists of conditions), sort keys, and the shapes in which entities
  are returned. Entity identifiers are the 128-bit values of their UUIDs;
  times are microseconds since the Unix epoch.
- `app/` — the database (sqlx), storage, clock and HTTP-facing side: it reads rows and the time,
  hands them to the library, and serializes what comes back.
- `tests/` — tests of the library on concrete values.
