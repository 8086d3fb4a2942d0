# MiroFish

MiroFish builds a knowledge graph from uploaded documents, runs a social-media
simulation of agents drawn from that graph, and writes a prediction report
about what happened, with a ReACT research loop and a chat about the report.

## Layout

- `src/` is the library, verified with Verus. It holds the records (projects,
  simulations, tasks, reports), the in-memory task table and report store, the
  simulation engine's rounds and actions, text chunking and preprocessing,
  the parsing of language-model replies, every prompt, the report tools and
  the ReACT loop's decisions, the graph-memory activity buffers, and the
  decisions the HTTP handlers make. Each public function states what it
  returns over spec functions; invariants of the stores and the engine are
  stated as `wf` predicates and kept by every operation.
- `tests/` runs the library on concrete inputs.
- `app/` is the server around the library: configuration from the
  environment, the axum routes, the language-model and graph-service clients,
  the background loops that await them, and the agents' floating-point
  choices.
