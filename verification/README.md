# bevy_demo

The rules of a small tower-defense game, its two terminal editors for the
tower, unit and wave tables, and the logic of its terminal chat client,
written in Verus with their behaviour stated in contracts and proved.

- `src/` is the verified library:
  - `text`, `order`, `search`, `input`: character-level text helpers
    (decimal formatting and parsing, replacement), stable orderings by key,
    key events;
  - `config`: the tower, unit and wave records the editors and the game
    share;
  - `tower_manager`, `wave_manager`: the editors' state, every key and
    command as an operation on an abstract model, with the laws that relate
    them (undoing steps, cycling fields, invariants kept);
  - `tui`: the chat client's input line, submissions and listings;
  - `systems`: the game rules (waves and enemies, towers and upgrades,
    workers and resources, recruiting, menus, the player list, the cursor,
    entity bookkeeping);
  - `wasm_tilemap`: the tile-set lookup of the browser map.
- Waves: a wave's spawn count is kept at the wave's total after its last
  enemy, so that the completion check (which only ends the wave) sees it
  finished; the count starts over, with the next wave's total, when the
  next wave starts (`systems::enemy::start_wave_local`).
- `tests/` runs the library on concrete values.
- `app/` is the terminal front end: reading and writing the `.toml`
  tables, the preview images, the key loops and the drawing.
