# lightning_net_tokio

Handles the sockets of lightning peers: reads what they send and hands it to the peer manager,
writes what the peer manager has for them, holds reading back when writes pile up, and shuts
connections down.

- `src/` is the library, verified with Verus. It decides; it does no input or output.
  - `connection.rs`: the state of a connection, and what wakes its reading task and its user
  - `reading.rs`: the reading task, as a machine from events to actions
  - `sending.rs`: the steps of a send
  - `setup.rs`: how a connection gets under way
  - `descriptor.rs`: the handle by which the peer manager knows a connection
  - `configurations.rs`: what a user asks of a channel
  - `channels.rs`: the tokio channels, with what is taken for granted about them
  - `history.rs`, `laws.rs`: how all of this takes turns, and what holds whatever the order
- `app/` runs the library on tokio, with sockets and a peer manager of the `lightning` crate.
- `tests/` runs the library on given values, and has two peer managers talk to each other over
  wires that are kept in memory.
