# expl_compiler

A compiler for the ExpL teaching language that targets the XSM machine,
with its back end verified in Verus.

- `src/` is the verified library: the type table and the symbol tables
  (`parserlib`, `state`), the typing of expressions and the semantic checks
  (`validation`), code generation with its register allocation and labels
  (`codegen`), and the linker that turns labels into XSM addresses
  (`linker`). Each public function states what it computes over a
  mathematical model of its inputs; the code generator's model is the
  function `gen` in `codegen`, from a syntax tree and a generator state to
  the lines written and the state after.
- `app/` is the command-line program: file input and output, logging, and
  the lexers and the parser that grmtools generates from `lexer.l`,
  `parser.y` and `linker.l`.
- `tests/` runs the library on concrete programs and texts.
