# space_war

The client of a turn-based space war game played in the terminal.

- `src/` is the verified library: grid geometry (`game::world::vector`), the world
  model (`game::world`), the state machines of the application and of each screen
  (`app`, `game`, `pages`, `router`), and the requests sent to the game server (`api`).
  Each screen answers a message or an event with its new state and the effect it asks
  for, and the contracts state both. Where a result comes from the TUI toolkit or from
  std's formatting (which colour a colour text names, the pretty `Debug` layout in some
  log lines), the contracts name that result and state it over the name.
- `app/` is the terminal program around it: the components of the TUI toolkit, the
  HTTP calls on their own threads, the JSON (de)serialisation and the log file.
- `tests/` runs the library on concrete values.
