# rururucore

A data model for Jupyter notebooks (nbformat 4) with the schema's field
rules, written in Verus.

- `src/json.rs`: the library's picture of a parsed JSON document (`Json`),
  parsing through `serde_json`, and member lookup.
- `src/pattern.rs`: the schema's three regular expressions, matched through
  the `regex` crate, and the texts each of them accepts.
- `src/rules.rs`: the rules on single fields (`nbformat`, `nbformat_minor`,
  `original_notebook_format`, cell ids, names, tags and cell types).
- `src/model.rs`: the notebook types and their views.
- `src/decode.rs`: decoding `Json` into the notebook types, reading the
  members of an object in their order.
- `src/encode.rs`: writing the notebook types as `Json`, with the
  statement that decoding gives the value back.
- `src/laws.rs`: properties of the rules and decoders over all inputs.
- `app/lib.rs`: `serde` copies of the types, whose constrained fields are
  read through the library's checks.

The tests under `tests/` run the library with `serde_json` and `regex`
linked.
