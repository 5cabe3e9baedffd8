# cluaiz

The model-management and request-handling core of the Cluaiz local inference
engine, written in Verus: every public function in `src/` carries a contract that
Verus proves, and the calls into the standard library, `serde_json` and
`minijinja` go through small trusted wrappers whose contracts say what those
calls return.

## Layout

- `src/text.rs` — character-level string helpers and the few standard-library
  calls (case mapping, path pieces) the library trusts.
- `src/json.rs` — what `serde_json` finds in a model's companion JSON files and
  in JSON chat prompts, and the key choices the library makes on top of it.
- `src/taxonomy/` — model classification: keyword heuristics, quantization tags,
  speech-to-text families and their package contracts, task rules.
- `src/discovery/` — reading what a model file says about itself: GGUF header
  facts, ONNX graph scans, companion JSON files, capability rules and the
  capability resolver.
- `src/prober.rs`, `src/moe.rs` — whole-model discovery (task vote, slot) and
  mixture-of-experts detection.
- `src/fetch/` — Hugging Face repository trees grouped into downloadable
  variants, companion-file selection, speech-synthesis package contracts,
  manifest planning and the registry service's URLs.
- `src/registry/` — the model vault's folders, the installed-model registry and
  the registry of plugins, MCP servers and skills, with read-after-write laws.
- `src/serving/` — the decisions behind the HTTP API: chat, audio planning and
  its retry step, embeddings,
  ingestion, component settings and API-key checks.
- `src/settings.rs`, `src/prompting.rs`, `src/codec.rs`, `src/order.rs`,
  `src/hardware.rs`, `src/chat.rs`, `src/entities.rs`, `src/listing.rs`,
  `src/manifest.rs` — settings, prompt templates, base64, ordering, and the
  shared data types.
- `app/` — the input/output around the library: folder scans, JSON and YAML
  files, HTTP calls, serde forms of the library's types, and the floating-point
  estimates.
- `tests/` — tests of the library on concrete values.
