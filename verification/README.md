# pcli

A developer-focused task manager for the terminal: projects, tasks with
priorities and due dates, reminders fired by a background service, and an
interactive mode with completion and hints.

The logic of the program is a Verus library whose functions carry
contracts proved by Verus:

- `task`, `project`, `reminder`, `time_log`: the data and what each
  operation on it does; `duration` and `tasks_cmd` read durations, due
  dates and task actions; `filter` reads and applies the task list's
  filters.
- `store`: the columns written for each kind of record and what is made of
  the columns read back (a record whose points in time have four-digit
  years, written and read back, gives the same value).
- `table`, `dashboard` and `listing`: the cells and lines that are
  printed, and the order in which tasks are listed.
- `repl`: what a typed line asks for, and the completions and hints
  offered while typing.
- `commands`, `paths`, `config`, `tui`: the command line, file locations,
  settings and the board's state.
- `clock` and `text`: points in time and the calendar, and text helpers,
  including the few calls into `chrono`, `shellwords` and the standard
  library, each behind a function whose contract states what it relies on.

`app/` is the program around the library: the SQLite storage, the
settings file, the terminal, the line editor, and the background service.
