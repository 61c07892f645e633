# oxidized_server

The verified core of the Oxidized Minecraft Java Edition server, written in
Verus. Verus proves the contract of every function in `src/` except the
small `#[verifier::external_body]` wrappers around `rand`, `dashmap` and
std (random numbers, the map of operators and of connection attempts, the
clock, string hashing, `String::push`): their contracts are trusted, and
each one's doc comment says what it claims of the call it makes.

- `src/config.rs`, `src/config/`, `src/properties.rs`: `server.properties`
  parsing, defaults, validation and saving; `src/config_roundtrip.rs`
  proves that a saved configuration reads back to the same settings.
- `src/chat.rs`, `src/blocks.rs`, `src/mining.rs`, `src/placement.rs`,
  `src/movement.rs`, `src/session.rs`, `src/connection.rs`: the rules the
  server applies to chat messages, block breaking and placing, movement,
  connections and the per-player play session.
- `src/tick.rs`: the world clock, the weather cycle and tick-load reporting.
- `src/ops.rs`: the operator list, kept in a `DashMap`.
- `app/`: the binary — command line, logging, file I/O and the tick thread.
