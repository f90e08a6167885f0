# lsp_types

Types of the Language Server Protocol, with their constructors, conversions and
the flag set of file watchers, verified with Verus.

- `src/` is the library. Each module holds one group of protocol types and the
  functions on them; the contracts state what each constructor, conversion and
  flag operation returns. `position` and `diagnostic` also state the order of
  positions and of severities, and `watch` the bit-flag semantics of
  `WatchKind`, as proof functions.
- `app/` holds the JSON wire format: a copy of every type with its serde
  attributes, the conversions to and from the library types, and the custom
  (de)serialisers (`WatchKind`, the URI-keyed change map, the boolean form of
  a client's tag support), which call the library for their decisions.
- `tests/` runs the library on concrete values.
