# lightyear

The channel registry of a networking library for games, and its peer-to-peer transport between
browsers ("mugon"), verified with Verus.

- `src/channel`: settings and builders of channels, and the channels that every application has.
- `src/protocol`: the registry. It gives each channel type a network id, in the order of
  registration, and finds builders, names and ids again.
- `src/transport`: socket addresses, packet buffers, and the queues between tasks; in `mugon`,
  the sockets of a client and of a server, the handlers of what the page reports, and the
  decisions of the tasks that send packets.
- `src/vec_map.rs`: the map that the others keep their entries in.
- `app`: the registry as a resource of a bevy application, and the glue to the page.

Floating-point settings are held by their bit patterns. The queues are those of `tokio` and
`async-channel`; what is taken for granted of them is written above each function that calls
them, in `src/transport/queue.rs` and `src/transport/signal.rs`. What is taken for granted of
`std::any::TypeId` stands at the top of `src/protocol/channel.rs`.
