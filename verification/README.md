# queries_rusqlite_macros

The rules behind the `#[queries]` attribute and the `#[derive(FromRow)]`
macro of `queries-rusqlite`, verified with Verus.

- `src/` is the verified library. It works on a plain model of the
  declarations the macros read (`syntax`, `queries::QueryTrait`,
  `from_row::RowInput`) and decides, for every input, either the plan of
  the code to generate or the single error to report (`error`), with its
  message and the piece of input it points at.
  - `krate`: the `crate = path` argument.
  - `queries`: trait shape, attributes, method signatures, reserved names,
    the SQL attribute and argument binding.
  - `from_row`: type shape, `from_row` and `column` attributes, and the
    column each field is read from.
  - `laws`: properties proved of every accepted or refused declaration.
- `app/` holds the macro entry points: it hands the library the source text
  of the token streams, and writes the plan out with `quote`, using its own
  parse of the tokens for spans.
- `src/source.rs` reads declarations from their source text with `syn`
  into the model (through trusted readers of `syn`'s trees) and gives the
  macros' answers from source text, together with what was read.
- `tests/` exercises the library on declarations given as source text and
  as models.
