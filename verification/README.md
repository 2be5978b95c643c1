# invoice

Escrowed freelance invoices, verified with Verus.

- `src/` — the verified library: addresses as plain data (`party`), invoices,
  ids and errors (`invoice`), the events the contract publishes (`events`), the
  lifecycle steps with their effects (`lifecycle`), and the properties proved of
  the lifecycle (`laws`).
- `app/` — the Soroban contract around the library: storage with TTL extension,
  authorization, token transfers and event publication.
- `tests/` — executable tests of the library.
