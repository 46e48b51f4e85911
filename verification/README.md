# maze_runner

A small quiz game about shell commands: the server deals a maze of tiles, each
showing either a command or its definition, and the player pairs them up.

- `src/` is the verified library (Verus):
  - `catalog.rs`: the catalogue's rows, the seed an empty catalogue receives,
    and the filtering of rows that failed to read.
  - `maze.rs`: dealing a maze (two tiles per pair, shuffled by `rand`, put on
    the twelve cells in order) and the laws about the layout.
  - `scoring.rs`: the score board, the verdict on an answer, and the laws
    about how the score evolves.
- `app/` is the web server (actix-web, SQLite through rusqlite, serde), which
  reads the database and hands plain values to the library.
- `tests/` runs the library on concrete values.
