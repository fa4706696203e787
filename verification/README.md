# rusty_q2

A minimal Quake 2 game module. `src/` is the verified game logic: the
player-movement records and a client's think (`pmove`), the exported game
counters and the client table (`game`), and the lazy registration of console
variables (`cvar`). `app/` is the module the engine loads: the C-layout
records, the exported callbacks, and the calls into the engine through the
function table it hands over.
