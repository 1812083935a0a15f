# drone_core

The decision logic of the drones of a source-routed network simulation,
verified with Verus.

- `src/packet.rs`: packets, routing headers, controller events, and their
  mathematical views.
- `src/routing.rs`: reversing routes, next hops, negative acknowledgements
  over a reversed route.
- `src/neighbors.rs`: the set of neighbours a drone has a channel to.
- `src/amongus.rs`, `src/pie.rs`, `src/nita.rs`, `src/nita_basic.rs`: four
  drones. Each takes its state, a packet or command and the outcome of the
  drop draw, and returns the new state and the actions to perform
  (`src/action.rs`).
- `src/laws.rs`: properties across calls and inputs (packets go only to
  neighbours, floods are relayed once, crashed drones send nothing, routes
  are retraced exactly, negative acknowledgements go back the way their packet came).
- `app/`: runs the drones on crossbeam channels, plays the sounds, reads the
  TOML configuration and prints the controller's events.
