# substrate_lint

Lint rules for Substrate/FRAME pallets and runtimes, with their decisions
stated and proved in Verus.

- `src/` is the verified library. `text.rs` holds the character-sequence
  model (lines, searching, case, decimal digits) that every rule is stated
  over; `diagnostics.rs`, `config.rs` and `context.rs` the findings, the
  settings and the file being read, and the call into `syn` that parses
  it; `patterns.rs` the calls into `regex`.
  `rules/` holds the rules: each takes the file's context and the sites of
  its syntax tree that it reads (plain data: names, paths, lines, flags),
  and its `ensures` gives the exact list of findings as a spec function of
  them. `rules/masks.rs` computes which lines are test or otherwise
  non-production code; `rules/expr_shapes.rs` decides what an expression's
  shape shows (safe subtractions, fixed-length ranges, `H160` parameters,
  divisors that can be zero, `BigUint` values bounded by a check, the
  `clear_prefix` limit, unbounded collections in a type) and holds the
  names the rules recognise (validations, storage writes, the root guard).
  `rustc_pipeline.rs` orders and deduplicates the compiler driver's
  findings, splits its JSON lines and words its failures; `rustdoc_analysis.rs` parses rustdoc
  JSON with `serde_json` and reads storage items out of it.
- `app/` is the code around it: walking the syntax tree into sites,
  reading files next to the one linted, running `cargo check` and parsing
  each of its JSON lines, and the `serde` copies of the library's records.
- `tests/` exercises the library on concrete inputs.
