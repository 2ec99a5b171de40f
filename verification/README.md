# rgl

The core of rgl, a compiler for Minecraft Bedrock add-on projects, written
in Verus. The functions in `src/` carry contracts that Verus proves, except
for a few small wrappers around outside calls (`md5::compute`, `String::push`
and `IndexMap::get`), whose contracts are trusted and say so in their doc
comments.

## Layout

- `src/path.rs` — a path model (components, `join`, `parent`, lexical
  cleaning, containment) that the rest of the library states its contracts in.
- `src/paths.rs`, `src/temp.rs` — where caches, the `.regolith` folder and
  the working directory of a project live.
- `src/digest.rs` — the project hash that names a project's cache folder.
- `src/user_config.rs` — user settings and the defaults that stand in for
  unset ones.
- `src/export.rs` — export targets, their normalisation and the collision
  check between them.
- `src/file_protection.rs` — the record of files rgl wrote, and the checks
  that decide whether a folder may be cleared.
- `src/filter.rs`, `src/subprocess.rs`, `src/profile.rs`, `src/runner.rs`
  — how filters and profiles become plans of commands and file actions.
- `src/clean.rs`, `src/eval.rs`, `src/text.rs` — the `clean` command,
  run state and expression scope, small text helpers.
- `app/` — the command-line program around the library: reading and writing
  files, walking folders, running processes, locking the session.
- `tests/` — tests of the library on concrete values.

Public `lemma_*` proof functions state the properties that hold across
functions, such as that cleaning a path twice changes nothing, or that the
collision check never lets two export targets overlap.
