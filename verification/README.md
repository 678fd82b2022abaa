# luasyn

A tokenizer and recursive-descent parser for Lua 5.4 source text, with its
behaviour stated in contracts and proved.

- `tokenize` turns source text into tokens (`TokenStream::parse`) and gives the
  cursor operations the parsers use (`peek`, `skip`, `char_index`). Keywords
  are whole words, symbols are taken longest first, and a number needs a digit
  in its mantissa.
- `token` defines the tokens; `element` the syntax tree, whose copies
  (`Clone`) keep the parse tree.
- `parse` defines the `Parseable` trait and its impls for `Box`, `Option`,
  pairs, lists and separated lists.
- `grammar` states, as spec functions, what parsing each element from a
  position of the token sequence does: the value it yields (seen as a parse
  tree) and where it leaves the cursor. Expressions are parsed by operator
  precedence (precedence climbing).
- The parsers themselves are proved to do exactly what `grammar` states.
- `progress` proves that no element's parse panics, that a parse moves the
  cursor forward, and that a parse tree holds exactly the tokens it read.
- `precedence` proves that expression trees follow operator precedence and
  associativity.
- `laws` holds properties of the whole: lists take as much as parses, options,
  lists and chunks never fail, failed element parses give the cursor back,
  tokenizing never panics and ends with one end-of-input token at the end of
  the text, tokens follow the text in order, keywords match whole words and
  symbols the longest match.
