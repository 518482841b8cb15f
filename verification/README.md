# robo

The decision logic of `robo`, a tool that prepares Nix-backed Python runtimes
for robot-learning projects, written in Verus and verified.

- `src/` is the library. Every function states what it returns in
  `requires` / `ensures` and is proved against it: the runtime description
  `robo init` builds and its normal form, the scanners for `pyproject.toml`,
  `uv.lock` and `robo.nix`, the checks `robo check` and `robo doctor` run and
  the lines they print, failure-log diagnosis, vendoring, the shell hook and
  the exported environment.
- Printed lines are stated for every configuration: without colour they are
  the plain text exactly; with colour each line is its plain text with only
  escape codes and column padding inserted.
- The `toml`, `serde_json` and `console` crates are called through a few
  trusted wrappers whose contracts say what their documentation promises.
- `tests/` runs the library on concrete inputs.
- `app/` is the command-line program: argument parsing, files, processes and
  terminal output around the library.
