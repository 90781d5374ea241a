# player_sync

Verified decision logic of a networked top-down multiplayer client.

- `src/movement.rs`: steering direction from the W/S/D/A keys and the
  per-player step (keep, stop, move) of the movement system.
- `src/sync.rs`: when the locally owned player is republished.
- `src/sendables.rs`: the envelope in which shared player state travels.
- `src/remote_players.rs`: which server rows are forwarded, and how a frame's
  update and removal events about other players become scene commands.
- `app/`: the game itself (rendering, input, networking, floating-point
  motion), which calls the library for each decision.
