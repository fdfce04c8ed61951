# minecli

A terminal Minecraft launcher whose core logic is written in Verus and
proved against its specifications.

## Layout

- `src/` — the verified library.
  - `api.rs` — version metadata and sign-in replies as plain data; the
    allow/disallow rules that gate libraries and arguments.
  - `platform.rs` — the running platform as version rules name it; path joining.
  - `launcher.rs` — the class path, placeholder variables and the Java
    command of a launch.
  - `download.rs` — the files a version needs and where they go.
  - `config.rs` — launcher settings and the account list.
  - `instance.rs` — instances, declared mods and their sync plan, backups.
  - `versions.rs` — version ids, loader versions, version-list filters.
  - `mods.rs` — choosing compatible Modrinth versions, files and dependencies.
  - `auth.rs` — the decisions of the Microsoft / Xbox / Minecraft sign-in.
  - `progress.rs` — progress reporting of downloads, syncs and installs.
  - `ui.rs` — pieces of the terminal interface (tabs, selections, the log
    viewer, the file names that toggling and renaming packs give).
  - `screen.rs` — the terminal interface as a state machine: what a key or a
    finished background job does on each screen.
  - `text.rs`, `sort.rs` — string and ordering helpers with specifications.
- `tests/` — tests of the library on concrete values.
- `app/` — the program: command line, terminal drawing, network and file
  work. The terminal loop feeds keys and job results to `screen.rs` and
  performs the work it asks for; the command line dispatches to the
  library's planning functions and does the I/O around them.

Importing and exporting `.mrpack` modpacks and installing shader mods are
offered on the screens but report that they are not supported.
