# ehrmantraut

Parsing of JavaScript, TypeScript and TSX source into a concrete syntax tree
(with tree-sitter), and lowering of that tree into a small, language-neutral
IR for analysis passes, verified with Verus.

- `src/parser.rs` turns tree-sitter's tree into `CstNode`s: the result is
  the tree that tree-sitter builds, node by node and in order (stated over
  `ts_parse`, which names tree-sitter's nodes as plain values), and it is well
  formed (a node with text has no children, and its text is the source its
  span covers). The calls into tree-sitter are in `src/tree_sitter_calls.rs`.
- `src/lower/` lowers a `CstNode` tree; `lower/spec.rs` states what each
  lowering function returns over the models of `src/ir_model.rs`, and
  `lower/laws.rs` proves properties of lowering as a whole (source order is
  kept, declarations are annotated by their keyword, noise is dropped, and
  so on).
- `src/bindings.rs` holds the operations that the Node.js bindings expose,
  on plain values.
- `app/` is the Node.js addon: JSON serialization, async entry points and
  parallel batches.
