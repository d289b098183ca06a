# grammar

A grammar specification language, the data model of its tokens, and an executor that
drives parsers as streams.

Layout:

- `src/` — the verified library.
  - `messaging`, `collection`, `components`, `pipeline`: the traits a grammar and its
    pipeline stages are described with.
  - `type_info`: static and dynamic type information, and what generating it works out (the
    type's name, parsed with `syn`, and a random version-4 identifier).
  - `model`: token classes and their registry (an `IndexMap` behind specified wrappers),
    token arguments, and the errors of the model, with their messages.
  - `executor::control_flow`: the `State` of a stream, the fold a sink performs, and the
    `Source` adapter over an iterator.
  - `executor::streams`: the synchronous stream traits, buffer configuration, `Pipe`,
    `ReadMap` and `WriteMap`, and the step machines that decide what the asynchronous
    operations of a pipe do next.
- `app/` — the asynchronous side: `async` stream traits, the channels built on
  `async_channel`, the `Sink`, the loops that run the step machines, displayable copies of
  the library's types, and the code emitted for type information (`quote!`).
- `tests/` — tests of the library.
