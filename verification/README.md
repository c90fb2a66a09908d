# rnm

An HTTP client with environments: request templates in YAML files, variables that are filled into
them, values exported from responses back into the variables, and a terminal interface with an
inline editor and an undo tree.

* `src/` is the library. Its own code is verified with Verus. What it takes from other crates and
  from `std` without a specification stands behind contracts that are believed: the wrappers in
  `formats`, `http`, `history` and `text` that are marked `external_body`, and the contracts of
  three methods of `String` in `text`.
* `app/` is the program around it: arguments, files, the network and the terminal. It hands the
  library paths as text with `/` between their parts.
* `tests/` holds tests of the library.

| Modules | What they hold |
| --- | --- |
| `text`, `rows`, `paths`, `calendar` | texts, lists of keys and values, paths, dates |
| `formats`, `http` | what JSON, YAML and HTTP crates make of texts |
| `env`, `templates`, `history`, `exports` | environments, what filling in variables gives, the log of requests, exported values |
| `request`, `response`, `runner`, `task`, `cli` | requests and what is sent, printed and shown |
| `keys`, `undo`, `undo_graph`, `diff`, `grid*` | the inline editor |
| `telescope`, `tui*`, `preview`, `screen`, `popups`, `styled` | the terminal interface |
