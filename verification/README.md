# gist

Keeps a directory of gists. Each gist is a sub-directory of the gist root
holding a `.gist.json` file (creation time, and archive time if archived)
and a `.vscode/settings.json` file.

- `src/` is the verified library (Verus): gist name validation and paths
  (`name`, `paths`, `repository`), metadata (`metadata`, `timestamp`), the
  step-by-step decisions of creating, archiving, unarchiving and inspecting a
  gist (`task`), listing order and listing lines (`listing`), the outcome of
  commands on several gists (`run`), error messages (`error`) and the command
  line values (`cli`).
- `app/` is the program: command-line parsing, logging, the file system
  work that tasks ask for, JSON encoding of metadata, local-time display.
