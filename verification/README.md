# nebula_mesh

The decision logic of a LAN input mesh (one machine's mouse, keyboard and
clipboard driving its neighbours), verified with Verus.

- `src/protocol.rs`: the messages and their abstract views.
- `src/broker/`: the broker's registry (`session`), pairing, routing between
  controller and target (`router`), the per-message and per-disconnect steps
  (`connection`), and the route table.
- `src/edge.rs`, `src/client.rs`, `src/clipboard.rs`, `src/envelope.rs`: the
  client's edge switching, message handling, clipboard debouncing and
  envelope numbering.
- `src/platform/`: the input engines' suppression windows, motion capture
  and injection commands.
- `app/`: the WebSocket broker and client programs around the library, and
  the wire (JSON) form of the messages.
