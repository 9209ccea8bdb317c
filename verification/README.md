# sow_client

Verified client-side logic of the Shadows of War game client, written in
Verus. `src/` holds the decisions the client makes — sound scheduling,
campaign and tutorial rules, map clicks, menus and touch gestures,
structure placement, connection supervision, the lobby list, account
bookkeeping and store requests, analytics queueing, storage keys and encoders — each
with a contract proved by Verus. `tests/` runs them on concrete cases.
`app/` is plain Rust around the library: JSON decoding and encoding with
serde, the floating-point parts of sound and animation, and the persisted
form of the player's progress.
