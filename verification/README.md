# launcher_core

The core of a Windows game launcher and patcher, verified with Verus: its
configuration, its remote manifest, the filesystem boundaries it enforces,
the patch plan, and the decisions of a patch run.

- `src/` is the verified library. `winpath` models Windows paths (prefixes,
  components, joining, full form, `starts_with`); `path` builds the
  launcher's path rules on it; `manifest`, `config`, `call`, `plan`,
  `download`, `hash`, `status` and `scan` hold the rules of each part;
  `patch` holds `PatchSession`, the state machine of a patch run, which the
  caller drives with the outcome of each step it asks for.
- `app/` performs the I/O around the library: reading files, HTTP, hashing
  files in chunks, renaming, starting processes, the headless patch mode,
  the manifest generator, and a console front end to the launcher's commands.
- `tests/` exercises the library on concrete values.
