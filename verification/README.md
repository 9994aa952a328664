# trove

The verified core of Trove, a personal workbench for tasks, memories,
reminders and clipboard history kept in one SQLite database.

- `src/` is the library, written in Verus: the services, their rules and
  the text formats they read and write, each function with a contract that
  Verus proves. Calls into `rusqlite`, `chrono`, `uuid`, `serde_json`,
  `sha2`, `hex`, `csv` and `mime_guess` go through a few small trusted
  functions whose contracts say what those crates promise.
- `tests/` runs the library against real databases in temporary
  directories.
- `app/` is the `trove` program: the command line, the host that carries
  out a framed action request, and what touches the file system or uses
  floating point (backup listing, disk usage, clipboard thumbnails,
  semantic scoring).
