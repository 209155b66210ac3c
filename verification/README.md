# todo_manager

A terminal todo manager that keeps todos in a tree, saves them as JSON, and
reads the older save formats (0.1 to 0.4) by migrating them to the current one
(0.5).

- `src/` is the library, with its contracts and their proofs: the map type the todos are kept
  in (`keymap`), text helpers (`text`), the todo types (`todo`), the save
  formats and their migrations (`save`), the settings (`config`), the
  notifications to show (`notifications`), the editor fields (`editor`), the
  state of the manager (`app`), the key handling (`control`), what the screens
  show (`ui`), the key help texts (`help`), and properties that span several
  operations (`laws`).
- `app/` is the program around it: the terminal, reading keys, drawing with
  ratatui, reading and writing files with serde_json, the settings file, and
  running `notify-send`.
- `tests/` runs the library on concrete values.
