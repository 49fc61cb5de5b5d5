# tank_maze

A two-player, turn-based tank game. Each turn both players plan a script of
ten instructions; the scripts are exchanged over a peer-to-peer connection and
run side by side on a walled tile map. A tank wins by interacting on its goal
corner; reaching the goals in the same step is a draw.

- `src/` is the library, verified with Verus: tile encoding and maps
  (`map`), tanks (`tank`), the planning sidebar (`sidebar`), the turn logic
  (`gamestate`), an older grid maze (`maze`), the menus (`menu`,
  `multiplayer_menu`) and the host-code exchange (`network`).
- `app/` is the program around it: window, drawing and pointer geometry
  (ggez), the peer-to-peer connection and packet tasks (iroh, tokio, bincode).
- `tests/` exercises the library on concrete games.
