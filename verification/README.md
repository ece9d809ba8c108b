# satlight

A Lua tokenizer and recursive-descent parser whose behaviour is stated in
Verus contracts and proved.

- `src/tokenizer`: the cursor over the source bytes, the lexical grammar as
  spec functions (`grammar`), the tokenizer that reads one token at a time,
  and the token stream with one token of look-ahead that the parser reads.
- `src/parser`: the parsing rules as spec functions over the parser state
  (`rules`), and the parser itself, each of whose functions is proved to
  return exactly what its rule gives; `precedence` proves that every
  expression is grouped by its operators' precedence and associativity,
  and `starts` that an expression's span starts at its first token
  (unless it begins with a function literal).
- `src/ast`: the syntax tree, its keywords and symbols, operators, and the
  spans of its nodes.
- `src/location`: spans and positions in the source.
- `src/messages`: the texts shown for positions and errors.
- `app/main.rs`: parses `src/sample.txt` and prints the tree.
