# git_spawn

Builders for `git` subcommands and typed parsers for their output, with
their behaviour stated as Verus contracts and proved.

- `src/command/` — one builder per subcommand. Each implements
  `GitCommand`: it turns its settings into the argument vector that follows
  `git` and carries a `CommandExecutor` (working directory, environment,
  extra raw arguments, timeout, standard input).
- `src/parse/` — parsers for the output of `status`, `log`, `diff`,
  `blame`, `ls-tree`, `count-objects` and more, each specified by a spec
  function over the text it reads.
- `src/repo.rs` — `Repository`, whose accessors return commands scoped to
  its working tree.
- `src/conflicts.rs`, `hooks.rs`, `info.rs`, `remotes.rs`, `search.rs`,
  `signing.rs`, `stashes.rs`, `tags.rs`, `history.rs`, `patches.rs`,
  `workflow.rs` — higher-level operations: the arguments they run and what
  they make of the output.
- `src/text.rs` — the string and number routines the parsers share.
- `app/` — spawning `git` with tokio, file-system work for hooks, the
  asynchronous one-call operations, serializable copies of the data types
  and a `Display`able error.
- `tests/` — unit tests.
