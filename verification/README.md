# stern

Glue between domain models and slint UI globals, as a Verus-verified library.

- `src/property.rs` — `PropertyHandle`: mirrors one UI property; `set` stores
  a clone of the value, maps the value and hands the result to the UI setter;
  `watch_step` is one step of following a stream of values.
- `src/worker.rs` — the decisions of the background worker loop.
- `src/syntax.rs` — the parts of Rust syntax the macros read, as plain values.
- `src/tokens.rs` — tokens as proc-macro2 lexes them, and the text a run of
  tokens is handed back to syn as.
- `src/reader.rs` — building the syntax model from what syn reads from text:
  types, paths, struct items, `name = value` option lists.
- `src/adopter.rs` — reading an `InnerXxxAdopter` struct: its name and the kind
  of each field (property, callback, trackers, `globals`).
- `src/codegen.rs` — the source text the `adopter` attribute expands to, from
  the text of the struct.
- `src/mapper.rs` — checking a `define_mapper` property and generating the
  mapper implementation; `sp::SharedString` is mapped to `slint::SharedString`.
- `src/mapper_input.rs` — the grammar of the `define_mapper` input, read from
  its text.
- `src/route.rs` — the options of the `route` attribute, read from their text.
- `src/naming.rs`, `src/text.rs` — names of generated items and the string
  helpers they are built with.

`app/` holds what runs around the library: the macro entry points (token
streams become text for the library, and the generated text becomes tokens
again), the shared two-parameter `MappedPropertyHandle` with `watch`/`bind` to
a stream on the slint event loop, and the `WorkerThread` with its tokio runtime.
