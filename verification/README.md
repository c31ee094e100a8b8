# indrasnet_dao_core

The decision logic of the IndrasNet DAO program, verified with Verus.

Every instruction handler is a state transition over plain values: it takes
the decoded accounts and the request, and returns the new state or the error
the program answers with. Each contract says exactly which request is refused
with which error, and what an accepted one writes.

Layout:

- `src/` — the verified library: ideas and their embeddings, mesh groups,
  grants and their votes and reports, proposals and templates, governance
  parameters, the expert and AI-service registries, commercial enterprises.
  Public proof functions state the laws that hold across calls (proposal
  life cycle, vote counting, rate limits, text normalisation and hashing,
  group well-formedness).
- `tests/` — executable tests of the library with the real outside crates.
- `app/` — the glue to Solana accounts: Borsh decoding of account data into
  the library's types, and the floating-point vote multiplier of a grant's
  semantic distance.
