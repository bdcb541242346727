# agplatform

A platform abstraction (environment and file system) whose logic is verified
with Verus.

- `src/model.rs`: the abstract environment (`EnvModel`), the spec functions
  for reading, setting and removing variables, and the laws over them.
- `src/env.rs`: the `Env` interface and the in-memory `EnvImpl`.
- `src/error.rs`: platform errors and their display text.
- `src/fs.rs`, `src/test_platform/`: file system interface and the memory-only
  test platform.
- `src/utils.rs`: `unquote` and `strip_quotes`.
- `src/lib.rs`: the `Platform` interface and the default platform.
- `app/lib.rs`: loading the environment of the running process, and an error
  wrapper with the standard `Display` and `Error` traits.
