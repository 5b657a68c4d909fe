# rtuinventory

A terminal inventory manager backed by SQLite.

- `src/` is the verified library: text trimming and quantity parsing
  (`text`), item input checks and row conversion (`item`, also reachable as
  `db::db`), the settings with their recent-database list (`settings`), the
  key-driven state machine of the user interface (`ui`) and the texts the
  screens show (`display`).
- `app/` is the program around it: the terminal loop with crossterm and
  ratatui, the SQLite access with rusqlite, and the TOML settings file.
  The state machine returns an `Effect` for each key; the program performs it
  (store, update or delete an item, open another database, quit).
