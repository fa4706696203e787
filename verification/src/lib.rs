//! Game-side logic of a minimal Quake 2 game module: the player movement
//! records exchanged with the engine, the client table, the console
//! variable registration protocol and the bookkeeping of the exported game
//! state. The engine calls, raw pointers and float fields live in `app/`.

pub mod cvar;
pub mod game;
pub mod pmove;
