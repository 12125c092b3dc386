# enchanter_core

A small harness for agents that talk to OpenAI-compatible chat endpoints, written
in Verus.

- `src/` is the verified library: the chat protocol (`protocol/`), what providers
  decide (`provider/`: the mock providers' answers, the endpoint, request body and
  the reading of replies), the tool registry and its errors (`tools/`), and the
  agent's turn logic (`agent.rs`).
- `app/` is the program around it: HTTP, async traits (`LlmProvider`,
  `Streamable`, the `Tool` trait), the tool context, serde forms of the protocol
  types, and an example agent.
- `tests/` exercises the library.
