# zokrates_ast

The untyped abstract syntax tree of ZoKrates programs, and its construction
from the parse tree of a source file, verified with Verus.

- `src/parse_tree.rs`: the parse tree the grammar produces, with positions.
  Number and boolean literals, and tuple indices, are built through
  constructors that check what the grammar guarantees of them.
- `src/untyped.rs`: the untyped tree; each node records the source positions
  it comes from, and nodes compare by value.
- `src/number.rs`: values of digit strings, parsing into machine integers, and
  arbitrary-size naturals (parsed with `num-bigint`).
- `src/correspondence.rs`: for each kind of parse tree node, the relation
  between the node and the untyped nodes it becomes.
- `src/convert.rs`, `src/symbols.rs`: the conversion of expressions,
  statements and types, and of declarations and whole modules; each function
  is proved to return what the relations say.
- `src/laws.rs`: properties of the conversion as a whole.
