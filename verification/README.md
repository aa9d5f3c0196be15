# keen

A universal linter and runner: `keen <file>` checks a file's syntax, `keen -o
<file>` runs it (as a single file, or as the project around it), `keen -p
<file>` builds that project, `keen --fmt <file>` formats it.

The decisions are a library verified with Verus, in `src/`:

- `text` — character-level string operations (`lines`, `split`, substring search, trimming);
- `diagnostics` — which lines of compiler output are shown, and in which style;
- `paths` — ancestors of a file and the search for its project root by marker files;
- `check` — which checker a file gets, its command, and what its outcome reports (JSON is parsed with `serde_json`);
- `run` — how a single file is run or compiled, and the command plans that run or build a project;
- `cli` — the options, the actions of a run, formatters and `--init` templates;
- `install` — install locations, the line that puts `~/.local/bin` on `$PATH` in the shell's startup file, and the one-time `$PATH` notice;
- `command` — the commands and plan steps handed to the program;
- `laws` — properties that span several functions, proved.

`app/` is the program: it parses the command line, probes the file system,
spawns the planned processes and prints, all along the library's plans.
