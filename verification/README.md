# opencosmo_game

The game logic of a re-creation of *Cosmo's Cosmic Adventure*, written in
Verus: every function in `src/` carries a contract and is proved against it.

- `src/player.rs`, `src/player/`: the player's movement, frames, death and
  scripted input.
- `src/enemy_ai.rs`, `src/enemy_ai/`: every actor behaviour, the per-tick
  dispatch over all actors, and the systems that act between them (spawns,
  force-field beams, pipes, transporters, scooters, the boss's defeat).
- `src/level.rs`, `src/collide.rs`, `src/camera.rs`, `src/data.rs`: the map,
  its tiles and attributes, movement tests, lights and moving platforms.
- `src/flow.rs`, `src/pickups.rs`, `src/actors.rs`, `src/effects.rs`:
  collecting prizes, checkpoints, the level sequence, actor placement and
  short-lived effects.
- `src/savegame.rs`, `src/demo.rs`, `src/highscores.rs`, `src/input.rs`: the
  save-slot and demo file formats, the hall of fame, and the control
  bindings.
- `src/screen.rs`, `src/textpages.rs`, `src/panel.rs`, `src/hints.rs`,
  `src/help.rs`, `src/cheats.rs`, `src/controls_screen.rs`, `src/audio.rs`:
  menus, text frames and what each key does on them.

Laws the library keeps are public proof functions named `lemma_*` (for
instance that a save reads back as written, that rebinding leaves a control
on exactly one action, and that no actor's cycle drifts).

`app/` starts a session from the converted assets and holds the file
input/output; `tests/` exercises the library.
