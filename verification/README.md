# simulation_controller

The decision core of the controller of a simulated drone network. The network holds
drones, chat and media clients, and communication, text and media servers; the
controller keeps the roster of each kind of node and the neighbor list of each node,
applies the topology rules (a client has one or two links, a drone at least one, a
server at least two), and decides, for every request from the GUI and every event
from a node, how its knowledge changes and what it sends: commands to nodes, packets
handed over for delivery, notifications for the GUI, and global floodings.

Layout:

- `src/` — the verified library. `controller.rs` holds the state and its model,
  `verify.rs` the topology rules, `handlers/` the reaction to each command, event and
  GUI request, `support.rs` the changes that involve two nodes (spawn, crash, adding and
  removing links), `user_interaction.rs` the parsing of typed node ids and the drop-rate
  check, and `laws.rs` the properties that hold across operations.
- `tests/` — tests on concrete networks.
- `app/` — the runtime around the core: channels to the nodes and the GUI, the event
  loop, conversion of the network's message types, and the construction of drones.

Decisions are returned as a list of `Dispatch`es: an action, and what follows it once
it went through. Drop rates are held as the bit pattern of the `f32` they stand for.
