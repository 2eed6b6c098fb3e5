# federation_rs

The Rust side of Apollo Federation's composition and query planning: the
types that composition, Rover and GraphOS exchange, supergraph
configuration, the decisions taken around the JavaScript composer and query
planner, and the release tooling of the workspace. The library in `src/` is
verified with Verus; `app/` holds what runs around it.

## Layout

- `src/text.rs`, `src/keyed.rs`: verified text helpers and a sorted map
  keyed by text.
- `src/config/`: supergraph and project configuration, federation and
  router versions, configuration errors.
- `src/build/`, `src/build_plugin/`: build outputs, hints, errors, build
  messages and plugin results, and how a plugin's result becomes a build
  result.
- `src/composition.rs`, `src/hybrid.rs`, `src/hybrid_steps.rs`:
  composition issues, how they become build messages, the checks of hybrid
  composition, and the order of its steps and phases.
- `src/harmonizer.rs`, `src/compose.rs`: the settings and statements of
  JavaScript composition and the `supergraph compose` command.
- `src/manifest/`: reading and editing manifests through `toml`,
  `toml_edit` and `serde_json`, and their preparation for publishing.
- `src/router_bridge/`: query planning results and errors, the scripts
  handed to the JavaScript runtime, and the choice of a worker.
- `src/xtask/`: build targets, package groups and tags, and the commands of
  the release tooling.
- `app/`: the `supergraph` binary, serde copies of the library's types,
  the V8 runtime through `deno_core`, and the programs the release tooling
  runs.
