# mplangc

A compiler for MPLang, a small statically typed language with structs,
enumerations, traits, pointers, arrays and generic definitions. Everything that
decides what a program means is a library verified with Verus; the command
around it reads files, calls the linker and hands finished functions to
Cranelift.

## Layout

| Directory           | What it holds                                                          |
|---------------------|------------------------------------------------------------------------|
| `src/lexer.rs`      | text to tokens                                                         |
| `src/parser/`       | tokens to the syntax tree; `grammar` states the grammar                |
| `src/lowering/`     | name resolution; `rules` states what every name stands for             |
| `src/tycheck/`      | types of all expressions; `typing` states what well typed means        |
| `src/monomorphize/` | instances of generic definitions; `closed` states when none are left   |
| `src/compiler/`     | memory layout, initial data, and the steps that every function becomes |
| `src/backend/`      | from steps to functions of Cranelift                                   |
| `app/`              | the `mplangc` command                                                  |
| `tests/`            | tests of the library                                                   |

Each executable type `T` has a model `TV` of mathematical values, which
`deep_view` gives. The rules of a stage are spec functions over models; its
executable functions are proved to compute exactly what the rules say, errors
included.

## What is proved beyond that

- The tokens of a text cover it, in order, with the right positions.
- The tokens of two programs, one behind the other, are read as the declarations
  of both, in order.
- Every definition of a resolved program has a number of its own, and names can
  be used before they are declared.
- What passes the type checker is well typed, and the operands of every operator
  have types that the operator takes.
- In an expanded program no type, at any depth, is a type parameter or an
  application of a generic struct, and every array has a known length; only the
  definition of a generic enumeration keeps its own parameters. Expanding a
  program again changes nothing, and a larger depth limit changes nothing where a
  smaller one is enough.
- Fields do not overlap, sizes hold them, and arrays keep their elements aligned.
- The code of a well-typed function is never refused: each step takes what
  earlier steps made, every block ends, and every variable gets values of its own
  width.
- The same holds of whole programs: where names are unambiguous, a program that
  is resolved, checked and translated makes a function for each of its functions.

What is believed without proof is what `src/backend/clif.rs`, `src/lexer.rs`,
`src/text.rs` and `src/error.rs` say of Cranelift and of the standard library.
