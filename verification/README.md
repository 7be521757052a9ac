# treelix tag navigation

A verified library behind the tag commands of the treelix editor and behind its maintenance tasks.

A *tag* is a definition of, or a reference to, a named construct, found by a tree-sitter tags query.
The library turns query matches into tags and decides what the pickers show, where a choice leads,
which files of a workspace are searched and parsed, and what each step of a maintenance task is. All
of it is written in Verus, with contracts that state what is returned or changed.

- `src/`: the library. `query`, `tag` and `select` find tags; `symbols`, `workspace`, `goto` and
  `picker` are the commands; `walk`, `parse`, `scan`, `cache` and `delivery` are the search of a
  workspace; `rope`, `path`, `pattern` and `text` are what they stand on; `tasks` is the task runner.
- `tests/`: what the library does on given inputs.
- `app/`: the program around it, which owns the editor, the file system and the terminal.

Calls into `ropey`, `regex-cursor`, `grep-regex`, `grep-searcher`, `ignore` and `dashmap`, and the one
to std's `Path::strip_prefix`, go through small functions whose contracts are taken on trust. Each says so in its doc comment.
