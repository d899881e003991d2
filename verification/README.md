# eve

Eve models a server interaction as one global two-party conversation graph. This crate
validates such a conversation, projects it into one endpoint machine per role, checks
frame traces against it, compiles it into a reusable plan with semantic identities and a
compact transition dictionary, and executes the endpoint machines over Eve Wire.

The library under `src/` is written in Verus: every function carries a contract that
Verus proves.

- `conversation`, `map`, `text`, `json`, `encode`: the conversation model, sorted string
  maps, and the canonical JSON texts that identities are computed over.
- `validate`: the validator and its diagnostics (`EVE0001` to `EVE0020`).
- `projection`, `trace`: endpoint projection and trace checking.
- `identity`, `plan`, `plan_laws`: SHA-256 semantic identities, Eve Plan compilation and
  checking, and what compiled plans promise as a whole.
- `runtime`, `duality`, `wire`, `fault`, `driver`: endpoint machines, their duality, the
  reference and compact wire encodings, fault injection, and the generation workload.
- `benchmark`: the summaries of benchmark samples.

`app/` is the command line and everything that performs I/O: JSON parsing into the
library's types, the memory, TCP and QUIC transports, the threaded demonstrations and
the benchmark timing. `tests/` exercises the library on the generation conversation.
