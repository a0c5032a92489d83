# froggi

A self-hosted scoreboard for sports broadcasts: a web dashboard keeps the
score, downs, quarter, a game clock and a countdown, team presets and sponsor
logos, and an overlay page shows them live over websockets.

The logic is a library verified with Verus:

- `src/` holds the scoreboard's rules and every piece of text that the pages
  receive, each with a contract, and the laws that tie the operations
  together (for instance that setting a clock and reading it gives the value
  back, or that a saved state loads back unchanged). Calls into outside
  crates (base64, rand, uuid, argon2, cookie) sit in `src/trusted.rs` behind
  stated contracts.
- `tests/` runs the library on concrete values.
- `app/` is the server around it: the axum routes, files on disk, tokens,
  background loops and the supervising process that restarts and updates the
  server. It reads the pages, scripts and images from `./html` at run time.
